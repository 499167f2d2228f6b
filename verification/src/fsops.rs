//! Decision logic of the filesystem primitives: given the observed state of
//! a path and the desired state, compute the minimal reconciliation.  The
//! unverified shell observes (`stat`, content digest) and executes (create,
//! atomic write, chown, chmod, remove), and is obliged to make the observable
//! state afterwards match the models stated here.

use vstd::prelude::*;
use crate::bytes::bytes_eq;
use crate::errors::Error;
use crate::types::{Create, FileInfo, FileKind};

verus! {

/// The minimal mutation a filesystem primitive decided on.
///
/// `create` asks for the object to be (re)made: a recursive mkdir, an atomic
/// content write (write to a sibling temp path, fsync, rename), or a symlink
/// (re)creation, each applying the desired ownership and mode.  `chown` and
/// `chmod` reconcile ownership and mode of an object that already exists and
/// is otherwise acceptable.
#[derive(Clone, Copy, Debug, PartialEq, Eq, Structural)]
pub struct Reconcile {
    pub create: bool,
    pub chown: bool,
    pub chmod: bool,
}

impl Reconcile {
    /// Whether executing this reconciliation alters observable state.
    pub open spec fn spec_changed(self) -> bool {
        self.create || self.chown || self.chmod
    }

    /// The `changed` flag every mutating primitive reports.
    pub fn changed(&self) -> (r: bool)
        ensures
            r == self.spec_changed(),
    {
        self.create || self.chown || self.chmod
    }

    /// The reconciliation that does nothing.
    pub open spec fn converged() -> Reconcile {
        Reconcile { create: false, chown: false, chmod: false }
    }
}

/// What `ensure_dir` decides to do for one observation.
pub open spec fn dir_plan(observed: Option<FileInfo>, uid: u32, gid: u32, mode: u32) -> Result<
    Reconcile,
    Error,
> {
    match observed {
        None => Ok(Reconcile { create: true, chown: false, chmod: false }),
        Some(fi) => if fi.kind != FileKind::Dir {
            Err(Error::TypeMismatch)
        } else {
            Ok(
                Reconcile {
                    create: false,
                    chown: fi.uid != uid || fi.gid != gid,
                    chmod: fi.mode != mode,
                },
            )
        },
    }
}

/// Decide how to converge a directory: absent directories are created with
/// the given ownership and mode; present directories have ownership and mode
/// reconciled; any other kind of object is a `TypeMismatch`.
pub fn ensure_dir_plan(observed: &Option<FileInfo>, uid: u32, gid: u32, mode: u32) -> (r: Result<
    Reconcile,
    Error,
>)
    ensures
        r == dir_plan(*observed, uid, gid, mode),
{
    match observed {
        None => Ok(Reconcile { create: true, chown: false, chmod: false }),
        Some(fi) => {
            if fi.kind != FileKind::Dir {
                Err(Error::TypeMismatch)
            } else {
                Ok(
                    Reconcile {
                        create: false,
                        chown: fi.uid != uid || fi.gid != gid,
                        chmod: fi.mode != mode,
                    },
                )
            }
        },
    }
}

/// Whether the observed digest is exactly the desired content digest.
pub open spec fn content_matches(fi: FileInfo, source_digest: Seq<u8>) -> bool {
    match fi.digest {
        Some(d) => d@ == source_digest,
        None => false,
    }
}

/// What `ensure_file` decides to do for one observation.  `source_digest` is
/// the SHA-256 digest of the source content.
pub open spec fn file_plan(
    source_digest: Seq<u8>,
    observed: Option<FileInfo>,
    uid: u32,
    gid: u32,
    mode: u32,
    create: Create,
) -> Result<Reconcile, Error> {
    match observed {
        None => Ok(Reconcile { create: true, chown: false, chmod: false }),
        Some(fi) => if fi.kind != FileKind::Regular {
            Err(Error::TypeMismatch)
        } else if create == Create::IfMissing {
            Ok(Reconcile::converged())
        } else {
            Ok(
                Reconcile {
                    create: !content_matches(fi, source_digest),
                    chown: fi.uid != uid || fi.gid != gid,
                    chmod: fi.mode != mode,
                },
            )
        },
    }
}

/// Decide how to converge a regular file against desired content and
/// ownership.  Under `Create::Always` the file is rewritten (atomically)
/// exactly when its digest differs from the source digest; under
/// `Create::IfMissing` an existing regular file is left entirely alone.
/// An existing object of any other kind is a `TypeMismatch`.
pub fn ensure_file_plan(
    source_digest: &Vec<u8>,
    observed: &Option<FileInfo>,
    uid: u32,
    gid: u32,
    mode: u32,
    create: Create,
) -> (r: Result<Reconcile, Error>)
    ensures
        r == file_plan(source_digest@, *observed, uid, gid, mode, create),
{
    match observed {
        None => Ok(Reconcile { create: true, chown: false, chmod: false }),
        Some(fi) => {
            if fi.kind != FileKind::Regular {
                Err(Error::TypeMismatch)
            } else if create == Create::IfMissing {
                Ok(Reconcile { create: false, chown: false, chmod: false })
            } else {
                let same = match &fi.digest {
                    Some(d) => bytes_eq(d, source_digest),
                    None => false,
                };
                Ok(
                    Reconcile {
                        create: !same,
                        chown: fi.uid != uid || fi.gid != gid,
                        chmod: fi.mode != mode,
                    },
                )
            }
        },
    }
}

/// What `ensure_symlink` decides to do for one observation.
pub open spec fn symlink_plan(observed: Option<FileInfo>, target: Seq<char>, uid: u32, gid: u32) -> Result<
    Reconcile,
    Error,
> {
    match observed {
        None => Ok(Reconcile { create: true, chown: false, chmod: false }),
        Some(fi) => if fi.kind != FileKind::Link {
            Err(Error::TypeMismatch)
        } else {
            Ok(
                Reconcile {
                    create: match fi.target {
                        Some(t) => t@ != target,
                        None => true,
                    },
                    chown: fi.uid != uid || fi.gid != gid,
                    chmod: false,
                },
            )
        },
    }
}

/// Decide how to converge a symbolic link: absent links are created; links
/// with the wrong target are recreated; an existing non-symlink is a
/// `TypeMismatch`.
pub fn ensure_symlink_plan(observed: &Option<FileInfo>, target: &String, uid: u32, gid: u32) -> (r:
    Result<Reconcile, Error>)
    ensures
        r == symlink_plan(*observed, target@, uid, gid),
{
    match observed {
        None => Ok(Reconcile { create: true, chown: false, chmod: false }),
        Some(fi) => {
            if fi.kind != FileKind::Link {
                Err(Error::TypeMismatch)
            } else {
                let wrong = match &fi.target {
                    Some(t) => !(*t == *target),
                    None => true,
                };
                Ok(
                    Reconcile {
                        create: wrong,
                        chown: fi.uid != uid || fi.gid != gid,
                        chmod: false,
                    },
                )
            }
        },
    }
}

/// `ensure_removed` removes regardless of kind; an absent path is not an
/// error.  Returns whether a removal is needed, which is also the `changed`
/// flag.
pub fn ensure_removed_plan(observed: &Option<FileInfo>) -> (r: bool)
    ensures
        r == observed.is_some(),
{
    observed.is_some()
}

// ---------------------------------------------------------------------------
// Models of execution.  The shell is obliged to make the observable state
// after carrying out a plan match these functions; the idempotence and
// round-trip laws below hold of any shell that does.
// ---------------------------------------------------------------------------

/// Observable state of a directory after a directory plan was carried out.
pub open spec fn dir_after(observed: Option<FileInfo>, r: Reconcile, uid: u32, gid: u32, mode: u32) -> FileInfo {
    if r.create {
        FileInfo {
            kind: FileKind::Dir,
            uid,
            gid,
            mode,
            size: 0,
            digest: None,
            target: None,
        }
    } else {
        let fi = observed.unwrap();
        FileInfo {
            uid: if r.chown { uid } else { fi.uid },
            gid: if r.chown { gid } else { fi.gid },
            mode: if r.chmod { mode } else { fi.mode },
            ..fi
        }
    }
}

/// Observable state of a regular file after a file plan was carried out.
pub open spec fn file_after(
    observed: Option<FileInfo>,
    r: Reconcile,
    source_digest: Seq<u8>,
    source_len: u64,
    uid: u32,
    gid: u32,
    mode: u32,
    digest_vec: Vec<u8>,
) -> FileInfo
    recommends
        digest_vec@ == source_digest,
{
    if r.create {
        FileInfo {
            kind: FileKind::Regular,
            uid,
            gid,
            mode,
            size: source_len,
            digest: Some(digest_vec),
            target: None,
        }
    } else {
        let fi = observed.unwrap();
        FileInfo {
            uid: if r.chown { uid } else { fi.uid },
            gid: if r.chown { gid } else { fi.gid },
            mode: if r.chmod { mode } else { fi.mode },
            ..fi
        }
    }
}

/// Observable state of a symlink after a symlink plan was carried out.
pub open spec fn symlink_after(
    observed: Option<FileInfo>,
    r: Reconcile,
    target: String,
    uid: u32,
    gid: u32,
) -> FileInfo {
    if r.create {
        FileInfo {
            kind: FileKind::Link,
            uid,
            gid,
            mode: 0,
            size: 0,
            digest: None,
            target: Some(target),
        }
    } else {
        let fi = observed.unwrap();
        FileInfo {
            uid: if r.chown { uid } else { fi.uid },
            gid: if r.chown { gid } else { fi.gid },
            ..fi
        }
    }
}

/// Applying `ensure_dir` twice in succession converges: whatever the first
/// observation was, the state left by the first application plans no further
/// work, so the second application reports `changed == false`.
pub proof fn lemma_ensure_dir_idempotent(
    observed: Option<FileInfo>,
    uid: u32,
    gid: u32,
    mode: u32,
)
    requires
        dir_plan(observed, uid, gid, mode) is Ok,
    ensures
        dir_plan(
            Some(dir_after(observed, dir_plan(observed, uid, gid, mode).unwrap(), uid, gid, mode)),
            uid,
            gid,
            mode,
        ) == Ok::<Reconcile, Error>(Reconcile::converged()),
{
}

/// Applying `ensure_file` twice in succession converges, under either
/// creation policy.
pub proof fn lemma_ensure_file_idempotent(
    observed: Option<FileInfo>,
    source_digest: Seq<u8>,
    source_len: u64,
    uid: u32,
    gid: u32,
    mode: u32,
    create: Create,
    digest_vec: Vec<u8>,
)
    requires
        digest_vec@ == source_digest,
        file_plan(source_digest, observed, uid, gid, mode, create) is Ok,
    ensures
        file_plan(
            source_digest,
            Some(
                file_after(
                    observed,
                    file_plan(source_digest, observed, uid, gid, mode, create).unwrap(),
                    source_digest,
                    source_len,
                    uid,
                    gid,
                    mode,
                    digest_vec,
                ),
            ),
            uid,
            gid,
            mode,
            create,
        ) == Ok::<Reconcile, Error>(Reconcile::converged()),
{
}

/// Applying `ensure_symlink` twice in succession converges.
pub proof fn lemma_ensure_symlink_idempotent(
    observed: Option<FileInfo>,
    target: String,
    uid: u32,
    gid: u32,
)
    requires
        symlink_plan(observed, target@, uid, gid) is Ok,
    ensures
        symlink_plan(
            Some(
                symlink_after(
                    observed,
                    symlink_plan(observed, target@, uid, gid).unwrap(),
                    target,
                    uid,
                    gid,
                ),
            ),
            target@,
            uid,
            gid,
        ) == Ok::<Reconcile, Error>(Reconcile::converged()),
{
}

/// Removing twice converges: a removal leaves the path absent, and over an
/// absent path `ensure_removed` reports `changed == false`.
pub proof fn lemma_ensure_removed_idempotent()
    ensures
        forall|r: bool|
            call_ensures(ensure_removed_plan, (&None::<FileInfo>,), r) ==> r == false,
{
}

/// `ensure_removed` followed by `ensure_file` creation, then a check,
/// observes exactly the creation arguments: after a removal the observation
/// is absent, the creation plan writes, and the state it leaves carries
/// precisely the requested kind, ownership, mode and content digest.
pub proof fn lemma_removed_then_file_observes_args(
    source_digest: Seq<u8>,
    source_len: u64,
    uid: u32,
    gid: u32,
    mode: u32,
    create: Create,
    digest_vec: Vec<u8>,
)
    requires
        digest_vec@ == source_digest,
    ensures
        ({
            let plan = file_plan(source_digest, None, uid, gid, mode, create);
            let seen = file_after(
                None,
                plan.unwrap(),
                source_digest,
                source_len,
                uid,
                gid,
                mode,
                digest_vec,
            );
            &&& plan is Ok
            &&& plan.unwrap().spec_changed()
            &&& seen.kind == FileKind::Regular
            &&& seen.uid == uid
            &&& seen.gid == gid
            &&& seen.mode == mode
            &&& seen.size == source_len
            &&& content_matches(seen, source_digest)
        }),
{
}

/// The analogous round trip for `ensure_symlink`.
pub proof fn lemma_removed_then_symlink_observes_args(target: String, uid: u32, gid: u32)
    ensures
        ({
            let plan = symlink_plan(None, target@, uid, gid);
            let seen = symlink_after(None, plan.unwrap(), target, uid, gid);
            &&& plan is Ok
            &&& plan.unwrap().spec_changed()
            &&& seen.kind == FileKind::Link
            &&& seen.uid == uid
            &&& seen.gid == gid
            &&& seen.target == Some(target)
        }),
{
}

/// The analogous round trip for `ensure_dir`.
pub proof fn lemma_removed_then_dir_observes_args(uid: u32, gid: u32, mode: u32)
    ensures
        ({
            let plan = dir_plan(None, uid, gid, mode);
            let seen = dir_after(None, plan.unwrap(), uid, gid, mode);
            &&& plan is Ok
            &&& plan.unwrap().spec_changed()
            &&& seen.kind == FileKind::Dir
            &&& seen.uid == uid
            &&& seen.gid == gid
            &&& seen.mode == mode
        }),
{
}

} // verus!
