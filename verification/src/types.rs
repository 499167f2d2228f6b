//! Data model of the convergence engine: observed filesystem state, desired
//! ownership, and the planned actions that the unverified shell carries out.

use vstd::prelude::*;

verus! {

/// Kernel distribution this host runs.  Immutable for the lifetime of a run.
#[derive(Clone, Copy, Debug, PartialEq, Eq, Structural)]
pub enum OS {
    OmniOS,
    OpenIndiana,
    SmartOS,
    Other,
}

/// Governs whether a role must, may, or must not be invoked under a named
/// instance string.
#[derive(Clone, Copy, Debug, PartialEq, Eq, Structural)]
pub enum InstancePosture {
    Required,
    Prohibited,
    Optional,
}

/// How user-management primitives materialize `$HOME`.
#[derive(Clone, Debug)]
pub enum HomeDir {
    NFS,
    ZFS(String),
    Bare,
}

/// Creation policy of `ensure_file`.
#[derive(Clone, Copy, Debug, PartialEq, Eq, Structural)]
pub enum Create {
    Always,
    IfMissing,
}

/// Digest algorithm accepted by the downloader.
#[derive(Clone, Copy, Debug, PartialEq, Eq, Structural)]
pub enum HashType {
    SHA1,
    SHA256,
    MD5,
}

/// Kind of an observed filesystem object.
#[derive(Clone, Copy, Debug, PartialEq, Eq, Structural)]
pub enum FileKind {
    Regular,
    Dir,
    Link,
    Other,
}

/// Observed metadata of a filesystem object, produced on demand by the
/// observation side of the shell.  `digest` is the SHA-256 digest of the
/// content, populated for regular files; `target` is populated for symlinks.
#[derive(Clone, Debug)]
pub struct FileInfo {
    pub kind: FileKind,
    pub uid: u32,
    pub gid: u32,
    pub mode: u32,
    pub size: u64,
    pub digest: Option<Vec<u8>>,
    pub target: Option<String>,
}

/// Desired owner or group of a filesystem object: a name to be resolved
/// through the user/group probe, or an already-numeric id.
#[derive(Clone, Debug)]
pub enum Owner {
    Name(String),
    Id(u32),
}

impl Owner {
    /// Whether two desired owners denote the same principal, syntactically.
    pub open spec fn same(self, other: Owner) -> bool {
        match (self, other) {
            (Owner::Name(a), Owner::Name(b)) => a@ == b@,
            (Owner::Id(a), Owner::Id(b)) => a == b,
            _ => false,
        }
    }
}

/// Source of the content that `ensure_file` installs: a path in the role's
/// data directory, or an in-memory blob.
#[derive(Clone, Debug)]
pub enum FileSource {
    Path(String),
    Blob(Vec<u8>),
}

/// When an `EnsureOnline` action issues a refresh: always, never, or exactly
/// when the action planned immediately before it reported a change.
#[derive(Clone, Copy, Debug, PartialEq, Eq, Structural)]
pub enum Refresh {
    Always,
    Never,
    WhenPriorChanged,
}

/// One primitive operation requested by a role.  The shell executes each in
/// order by observing current state, asking the engine's decision functions
/// what to do, and carrying the answer out.
#[derive(Clone, Debug)]
pub enum Op {
    EnsureDir { path: String, owner: Owner, group: Owner, mode: u32 },
    EnsureFile {
        source: FileSource,
        dest: String,
        owner: Owner,
        group: Owner,
        mode: u32,
        create: Create,
    },
    EnsureSymlink { link: String, target: String, owner: Owner, group: Owner },
    EnsureRemoved { path: String },
    EnsureDownload { url: String, dest: String, digest: String, hash: HashType },
    Run { argv: Vec<String> },
    UpdatePackagesIps,
    EnsurePackagesIps { names: Vec<String> },
    UpdatePackages,
    EnsurePackages { names: Vec<String> },
    EnsureDataset { name: String, properties: Vec<(String, String)> },
    EnsureOnline { fmri: String, refresh: Refresh },
    EnsureCron { user: String, tag: String, line: String },
}

} // verus!
