//! The `www` role: nginx serving HTTPS with certificates maintained by an
//! ACME client, bootstrapped through a temporary self-signed certificate,
//! with nginx site configuration converged from the role's data directory.

use vstd::prelude::*;
use crate::context::{join_path, owner_is, owner_named};
use crate::errors::Error;
use crate::pkg::{missing_packages, spec_missing};
use crate::registry::{reg_has, Registry, RoleProvider};
use crate::types::{Create, FileSource, HashType, InstancePosture, Op, Refresh};

verus! {

// -------------------------------------------------------------------------
// Tokenization of nginx configuration lines, and log-path directories.
// -------------------------------------------------------------------------

/// Whitespace as nginx directives are split on.
pub open spec fn is_ws(b: u8) -> bool {
    b == 32 || b == 9
}

/// The whitespace-separated tokens of a line, empties dropped.
pub open spec fn spec_tokens(s: Seq<u8>) -> Seq<Seq<u8>>
    decreases s.len(),
{
    if s.len() == 0 {
        Seq::empty()
    } else if is_ws(s[0]) {
        spec_tokens(s.drop_first())
    } else {
        let rest = spec_tokens(s.drop_first());
        if s.len() > 1 && !is_ws(s[1]) {
            seq![seq![s[0]] + rest[0]] + rest.drop_first()
        } else {
            seq![seq![s[0]]] + rest
        }
    }
}

proof fn lemma_tokens_nonempty(s: Seq<u8>)
    requires
        s.len() > 0,
        !is_ws(s[0]),
    ensures
        spec_tokens(s).len() >= 1,
    decreases s.len(),
{
    if s.len() > 1 && !is_ws(s[1]) {
        lemma_tokens_nonempty(s.drop_first());
    }
}

/// Split a line into whitespace-separated tokens.
pub fn tokens(s: &[u8]) -> (r: Vec<Vec<u8>>)
    ensures
        r.deep_view() == spec_tokens(s@),
    decreases s@.len(),
{
    if s.len() == 0 {
        Vec::new()
    } else {
        let tail = vstd::slice::slice_subrange(s, 1, s.len());
        proof {
            assert(tail@ =~= s@.drop_first());
        }
        if s[0] == 32 || s[0] == 9 {
            tokens(tail)
        } else {
            let mut rest = tokens(tail);
            let ghost restv = rest.deep_view();
            if s.len() > 1 && !(s[1] == 32 || s[1] == 9) {
                proof {
                    lemma_tokens_nonempty(tail@);
                }
                let mut head = rest.remove(0);
                proof {
                    assert(head@ == restv[0]);
                }
                head.insert(0, s[0]);
                proof {
                    assert(head@ =~= seq![s@[0]] + restv[0]);
                }
                let ghost headv = head@;
                let mut out: Vec<Vec<u8>> = vec![head];
                let ghost restv1 = rest.deep_view();
                out.append(&mut rest);
                proof {
                    assert(restv1 =~~= restv.drop_first());
                    assert(out.deep_view() =~~= seq![headv] + restv1);
                    assert(out.deep_view() =~~= spec_tokens(s@));
                }
                out
            } else {
                let one: Vec<u8> = vec![s[0]];
                proof {
                    assert(one@ =~= seq![s@[0]]);
                }
                let ghost onev = one@;
                let mut out: Vec<Vec<u8>> = vec![one];
                out.append(&mut rest);
                proof {
                    assert(out.deep_view() =~~= seq![onev] + restv);
                    assert(out.deep_view() =~~= spec_tokens(s@));
                }
                out
            }
        }
    }
}

/// The byte spelling of the `access_log` directive.
pub open spec fn access_log_key() -> Seq<u8> {
    seq![97u8, 99u8, 99u8, 101u8, 115u8, 115u8, 95u8, 108u8, 111u8, 103u8]
}

/// The byte spelling of the value `off`.
pub open spec fn off_value() -> Seq<u8> {
    seq![111u8, 102u8, 102u8]
}

/// The directory of a path: everything before the last slash, or `None` for
/// a path without one.
pub open spec fn spec_dirname(s: Seq<u8>) -> Option<Seq<u8>>
    decreases s.len(),
{
    if s.len() == 0 {
        None
    } else if s.last() == 47 {
        Some(s.drop_last())
    } else {
        spec_dirname(s.drop_last())
    }
}

fn dirname(s: &[u8]) -> (r: Option<Vec<u8>>)
    ensures
        match r {
            Some(v) => spec_dirname(s@) == Some(v@),
            None => spec_dirname(s@) is None,
        },
{
    let mut i: usize = s.len();
    proof {
        assert(s@.take(s@.len() as int) =~= s@);
    }
    while i > 0
        invariant
            0 <= i <= s@.len(),
            spec_dirname(s@) == spec_dirname(s@.take(i as int)),
        decreases i,
    {
        proof {
            assert(s@.take(i as int).drop_last() =~= s@.take(i - 1));
            assert(s@.take(i as int).last() == s@[i - 1]);
        }
        if s[i - 1] == 47 {
            let v = vstd::slice::slice_to_vec(vstd::slice::slice_subrange(s, 0, i - 1));
            proof {
                assert(v@ =~= s@.take(i - 1));
            }
            return Some(v);
        }
        i -= 1;
    }
    proof {
        assert(s@.take(0) =~= Seq::<u8>::empty());
    }
    None
}

/// The log directory one configuration line asks for: the directory of the
/// `access_log` target, unless logging is off or the target names no
/// directory.
pub open spec fn spec_line_log_dir(line: Seq<u8>) -> Option<Seq<u8>> {
    let t = spec_tokens(line);
    if t.len() >= 2 && t[0] == access_log_key() && t[1] != off_value() {
        spec_dirname(t[1])
    } else {
        None
    }
}

/// The log directories a configuration file asks for, first occurrence
/// first, without duplicates, appended to `acc`.
pub open spec fn spec_log_dirs(lines: Seq<Seq<u8>>, acc: Seq<Seq<u8>>) -> Seq<Seq<u8>>
    decreases lines.len(),
{
    if lines.len() == 0 {
        acc
    } else {
        let next = match spec_line_log_dir(lines[0]) {
            Some(d) => if acc.contains(d) {
                acc
            } else {
                acc.push(d)
            },
            None => acc,
        };
        spec_log_dirs(lines.drop_first(), next)
    }
}

fn contains_bytes(hay: &Vec<Vec<u8>>, needle: &Vec<u8>) -> (r: bool)
    ensures
        r == hay.deep_view().contains(needle@),
{
    let mut i: usize = 0;
    while i < hay.len()
        invariant
            0 <= i <= hay@.len(),
            forall|j: int| 0 <= j < i ==> hay.deep_view()[j] != needle@,
        decreases hay@.len() - i,
    {
        proof {
            assert(hay.deep_view()[i as int] == hay@[i as int]@);
        }
        if crate::bytes::bytes_eq(&hay[i], needle) {
            return true;
        }
        i += 1;
    }
    proof {
        if hay.deep_view().contains(needle@) {
            let w = choose|j: int| 0 <= j < hay.deep_view().len() && hay.deep_view()[j] == needle@;
            assert(hay.deep_view()[w] == needle@);
        }
    }
    false
}

/// Collect the log directories named by a configuration file's lines into
/// `acc`, in order of first occurrence and without duplicates.
pub fn gather_log_dirs(lines: &Vec<Vec<u8>>, acc: Vec<Vec<u8>>) -> (r: Vec<Vec<u8>>)
    ensures
        r.deep_view() == spec_log_dirs(lines.deep_view(), acc.deep_view()),
{
    let ghost lv = lines.deep_view();
    let mut out = acc;
    let mut i: usize = 0;
    proof {
        assert(lv.skip(0) =~~= lv);
    }
    while i < lines.len()
        invariant
            0 <= i <= lines@.len(),
            lv == lines.deep_view(),
            spec_log_dirs(lines.deep_view(), acc.deep_view()) == spec_log_dirs(
                lv.skip(i as int),
                out.deep_view(),
            ),
        decreases lines@.len() - i,
    {
        proof {
            assert(lv.skip(i as int).drop_first() =~~= lv.skip(i + 1));
            assert(lv.skip(i as int)[0] == lv[i as int]);
            assert(lv[i as int] == lines@[i as int]@);
        }
        let ghost cur = out.deep_view();
        let t = tokens(lines[i].as_slice());
        proof {
            assert(t.deep_view().len() == t@.len());
            if t@.len() >= 2 {
                assert(t.deep_view()[0] == t@[0]@);
                assert(t.deep_view()[1] == t@[1]@);
            }
        }
        if t.len() >= 2 {
            let key = access_log_bytes();
            let off = off_bytes();
            if crate::bytes::bytes_eq(&t[0], &key) && !crate::bytes::bytes_eq(&t[1], &off) {
                match dirname(t[1].as_slice()) {
                    Some(d) => {
                        if !contains_bytes(&out, &d) {
                            out.push(d);
                            proof {
                                assert(out.deep_view() =~~= cur.push(
                                    spec_line_log_dir(lv[i as int]).unwrap(),
                                ));
                            }
                        }
                    },
                    None => {},
                }
            }
        }
        proof {
            assert(spec_log_dirs(lv.skip(i as int), cur) == spec_log_dirs(
                lv.skip(i + 1),
                out.deep_view(),
            ));
        }
        i += 1;
    }
    proof {
        assert(lv.skip(lv.len() as int) =~~= Seq::<Seq<u8>>::empty());
    }
    out
}

fn access_log_bytes() -> (r: Vec<u8>)
    ensures
        r@ == access_log_key(),
{
    let mut r: Vec<u8> = Vec::new();
    r.push(97);
    r.push(99);
    r.push(99);
    r.push(101);
    r.push(115);
    r.push(115);
    r.push(95);
    r.push(108);
    r.push(111);
    r.push(103);
    proof {
        assert(r@ =~= access_log_key());
    }
    r
}

fn off_bytes() -> (r: Vec<u8>)
    ensures
        r@ == off_value(),
{
    let mut r: Vec<u8> = Vec::new();
    r.push(111);
    r.push(102);
    r.push(102);
    proof {
        assert(r@ =~= off_value());
    }
    r
}

// -------------------------------------------------------------------------
// The primary domain, from the role's domains file.
// -------------------------------------------------------------------------

/// The primary domain: the first whitespace token of the first line.
pub open spec fn spec_primary_domain(lines: Seq<Seq<u8>>) -> Option<Seq<u8>> {
    if lines.len() == 0 {
        None
    } else {
        let t = spec_tokens(lines[0]);
        if t.len() == 0 {
            None
        } else {
            Some(t[0])
        }
    }
}

/// Determine the primary domain of this instance from the lines of its
/// domains file; an empty file, or one opening with a blank line, is
/// `ConfigInvalid`.
pub fn primary_domain(lines: &Vec<Vec<u8>>) -> (r: Result<Vec<u8>, Error>)
    ensures
        match r {
            Ok(d) => spec_primary_domain(lines.deep_view()) == Some(d@),
            Err(e) => spec_primary_domain(lines.deep_view()) is None && e == Error::ConfigInvalid,
        },
{
    if lines.len() == 0 {
        return Err(Error::ConfigInvalid);
    }
    proof {
        assert(lines.deep_view()[0] == lines@[0]@);
    }
    let t = tokens(lines[0].as_slice());
    if t.len() == 0 {
        Err(Error::ConfigInvalid)
    } else {
        proof {
            assert(t.deep_view()[0] == t@[0]@);
        }
        let mut out = t;
        let first = out.remove(0);
        Ok(first)
    }
}

// -------------------------------------------------------------------------
// The certificate bootstrap retry machine.
// -------------------------------------------------------------------------

/// Where the certificate bootstrap stands: registering the account, fetching
/// the first certificates, or done.
#[derive(Clone, Copy, Debug, PartialEq, Eq, Structural)]
pub enum BootstrapState {
    Registering,
    Fetching,
    Done,
}

/// What the bootstrap loop transitions to: a failure at either step sleeps
/// and starts over from registration; success advances.
pub fn bootstrap_next(state: BootstrapState, ok: bool) -> (r: BootstrapState)
    ensures
        state == BootstrapState::Registering && ok ==> r == BootstrapState::Fetching,
        state == BootstrapState::Fetching && ok ==> r == BootstrapState::Done,
        state != BootstrapState::Done && !ok ==> r == BootstrapState::Registering,
        state == BootstrapState::Done ==> r == BootstrapState::Done,
{
    match state {
        BootstrapState::Registering => if ok {
            BootstrapState::Fetching
        } else {
            BootstrapState::Registering
        },
        BootstrapState::Fetching => if ok {
            BootstrapState::Done
        } else {
            BootstrapState::Registering
        },
        BootstrapState::Done => BootstrapState::Done,
    }
}

/// The command the bootstrap runs in a given state, if any.
pub fn bootstrap_command(state: BootstrapState) -> (r: Option<Vec<String>>)
    ensures
        state == BootstrapState::Registering ==> (r matches Some(argv) && argv.deep_view()
            =~~= seq!["/opt/dehydrated/bin/dehydrated"@, "--accept-terms"@, "--register"@]),
        state == BootstrapState::Fetching ==> (r matches Some(argv) && argv.deep_view()
            =~~= seq!["/opt/dehydrated/bin/dehydrated"@, "--cron"@]),
        state == BootstrapState::Done ==> r is None,
{
    match state {
        BootstrapState::Registering => {
            let mut argv: Vec<String> = Vec::new();
            argv.push("/opt/dehydrated/bin/dehydrated".to_owned());
            argv.push("--accept-terms".to_owned());
            argv.push("--register".to_owned());
            Some(argv)
        },
        BootstrapState::Fetching => {
            let mut argv: Vec<String> = Vec::new();
            argv.push("/opt/dehydrated/bin/dehydrated".to_owned());
            argv.push("--cron".to_owned());
            Some(argv)
        },
        BootstrapState::Done => None,
    }
}

// -------------------------------------------------------------------------
// Stale site files.
// -------------------------------------------------------------------------

/// The files found in a configuration directory that the role no longer
/// carries: each is removed.
pub fn stale_site_files(existing: Vec<String>, wanted: &Vec<String>) -> (r: Vec<String>)
    ensures
        r@ == spec_missing(existing@, wanted@),
{
    missing_packages(existing, wanted)
}

/// Register the `www` role; it serves one or more named instances, so an
/// instance label is required.
pub fn register(registry: &mut Registry) -> (r: Result<(), Error>)
    ensures
        reg_has(old(registry).entries(), "www"@) ==> r == Err::<(), Error>(Error::DuplicateRole)
            && *final(registry) == *old(registry),
        !reg_has(old(registry).entries(), "www"@) ==> r == Ok::<(), Error>(()) && ({
            let e = final(registry).entries();
            &&& e == old(registry).entries().push(e.last())
            &&& e.last().name@ == "www"@
            &&& e.last().posture == InstancePosture::Required
        }),
        old(registry).wf() ==> final(registry).wf(),
{
    registry.register(RoleProvider { name: "www".to_owned(), posture: InstancePosture::Required })
}


// -------------------------------------------------------------------------
// The operation plan of the role, in the order the shell carries it out.
// -------------------------------------------------------------------------

/// A root-owned directory converged to the given mode.
pub open spec fn dir_op(op: Op, path: Seq<char>, ow: Seq<char>, gr: Seq<char>, mode: u32) -> bool {
    op matches Op::EnsureDir { path: p, owner, group, mode: m } && p@ == path && owner_is(
        owner,
        ow,
    ) && owner_is(group, gr) && m == mode
}

/// A data file converged onto a destination.
pub open spec fn file_op(
    op: Op,
    src: Seq<char>,
    dest: Seq<char>,
    mode: u32,
    create: Create,
) -> bool {
    op matches Op::EnsureFile { source, dest: d, owner, group, mode: m, create: c } && (
    source matches FileSource::Path(p) && p@ == src) && d@ == dest && owner_is(owner, "root"@)
        && owner_is(group, "root"@) && m == mode && c == create
}

/// A root-owned symlink converged to a target.
pub open spec fn link_op(op: Op, link: Seq<char>, target: Seq<char>) -> bool {
    op matches Op::EnsureSymlink { link: l, target: t, owner, group } && l@ == link && t@ == target
        && owner_is(owner, "root"@) && owner_is(group, "root"@)
}

/// The setup plan of the role, up to the per-directory site configuration:
/// packages, the ACME client's directory tree and workaround PATH, its
/// release tarball (downloaded and extracted only when not yet unpacked),
/// its wrapper, hook and configuration files, the web root directories, and
/// the base nginx configuration.
pub fn dehydrated_setup_ops(data_dir: &String, unpacked: bool, hookauth: &Option<String>) -> (r:
    Vec<Op>)
    ensures
        ({
            let dl: int = if unpacked {
                0
            } else {
                2
            };
            &&& r@.len() == 19 + dl
            &&& (r@[0] matches Op::EnsurePackages { names } && names@.len() == 2 && names@[0]@
                == "nginx"@ && names@[1]@ == "gtar"@)
            &&& dir_op(r@[1], "/opt/dehydrated"@, "root"@, "root"@, 0o750)
            &&& dir_op(r@[2], "/opt/dehydrated/bin"@, "root"@, "root"@, 0o750)
            &&& dir_op(r@[3], "/opt/dehydrated/lib"@, "root"@, "root"@, 0o750)
            &&& dir_op(r@[4], "/var/opt/dehydrated"@, "root"@, "root"@, 0o750)
            &&& dir_op(r@[5], "/opt/dehydrated/workaround"@, "root"@, "root"@, 0o750)
            &&& link_op(r@[6], "/opt/dehydrated/workaround/awk"@, "/usr/bin/nawk"@)
            &&& link_op(r@[7], "/opt/dehydrated/workaround/grep"@, "/usr/bin/ggrep"@)
            &&& (!unpacked ==> (r@[8] matches Op::EnsureDownload { url, dest, digest, hash }
                && url@
                == "https://github.com/lukas2511/dehydrated/releases/download/v0.6.5/dehydrated-0.6.5.tar.gz"@
                && dest@ == "/var/tmp/dehydrated-0.6.5.tar.gz"@ && digest@
                == "cedf07369517c317c4e1075540b94699"@ && hash == HashType::MD5) && (r@[9] matches
            Op::Run { argv } && argv.deep_view() =~~= seq![
                "/opt/local/bin/gtar"@,
                "-xz"@,
                "-C"@,
                "/opt/dehydrated/lib"@,
                "-f"@,
                "/var/tmp/dehydrated-0.6.5.tar.gz"@,
            ]))
            &&& file_op(
                r@[8 + dl],
                data_dir@ + "/"@ + "scripts/dehydrated.sh"@,
                "/opt/dehydrated/bin/dehydrated"@,
                0o755,
                Create::Always,
            )
            &&& file_op(
                r@[9 + dl],
                data_dir@ + "/"@ + "scripts/hook.sh"@,
                "/var/opt/dehydrated/hook"@,
                0o755,
                Create::Always,
            )
            &&& file_op(
                r@[10 + dl],
                data_dir@ + "/"@ + "config"@,
                "/var/opt/dehydrated/config"@,
                0o600,
                Create::Always,
            )
            &&& file_op(
                r@[11 + dl],
                data_dir@ + "/"@ + "domains.txt"@,
                "/var/opt/dehydrated/domains.txt"@,
                0o600,
                Create::Always,
            )
            &&& (hookauth matches Some(src) ==> file_op(
                r@[12 + dl],
                src@,
                "/var/opt/dehydrated/hookauthconfig"@,
                0o600,
                Create::Always,
            ))
            &&& (hookauth is None ==> (r@[12 + dl] matches Op::EnsureRemoved { path } && path@
                == "/var/opt/dehydrated/hookauthconfig"@))
            &&& dir_op(r@[13 + dl], "/var/www"@, "root"@, "www"@, 0o755)
            &&& dir_op(r@[14 + dl], "/var/www/users"@, "root"@, "www"@, 0o755)
            &&& dir_op(r@[15 + dl], "/var/www/htdocs"@, "root"@, "www"@, 0o750)
            &&& dir_op(r@[16 + dl], "/var/www/challenges"@, "root"@, "www"@, 0o750)
            &&& file_op(
                r@[17 + dl],
                data_dir@ + "/"@ + "nginx.conf"@,
                "/opt/local/etc/nginx/nginx.conf"@,
                0o600,
                Create::Always,
            )
            &&& file_op(
                r@[18 + dl],
                data_dir@ + "/"@ + "ssl.conf"@,
                "/opt/local/etc/nginx/ssl.conf"@,
                0o600,
                Create::Always,
            )
        }),
{
    let mut r: Vec<Op> = Vec::new();
    let mut names: Vec<String> = Vec::new();
    names.push("nginx".to_owned());
    names.push("gtar".to_owned());
    r.push(Op::EnsurePackages { names });
    r.push(Op::EnsureDir {
        path: "/opt/dehydrated".to_owned(),
        owner: owner_named("root"),
        group: owner_named("root"),
        mode: 0o750,
    });
    r.push(Op::EnsureDir {
        path: "/opt/dehydrated/bin".to_owned(),
        owner: owner_named("root"),
        group: owner_named("root"),
        mode: 0o750,
    });
    r.push(Op::EnsureDir {
        path: "/opt/dehydrated/lib".to_owned(),
        owner: owner_named("root"),
        group: owner_named("root"),
        mode: 0o750,
    });
    r.push(Op::EnsureDir {
        path: "/var/opt/dehydrated".to_owned(),
        owner: owner_named("root"),
        group: owner_named("root"),
        mode: 0o750,
    });
    // Older releases shipped the old awk as /usr/bin/awk; the wrapper
    // prepends this workaround directory to PATH to paper over that.
    r.push(Op::EnsureDir {
        path: "/opt/dehydrated/workaround".to_owned(),
        owner: owner_named("root"),
        group: owner_named("root"),
        mode: 0o750,
    });
    r.push(Op::EnsureSymlink {
        link: "/opt/dehydrated/workaround/awk".to_owned(),
        target: "/usr/bin/nawk".to_owned(),
        owner: owner_named("root"),
        group: owner_named("root"),
    });
    r.push(Op::EnsureSymlink {
        link: "/opt/dehydrated/workaround/grep".to_owned(),
        target: "/usr/bin/ggrep".to_owned(),
        owner: owner_named("root"),
        group: owner_named("root"),
    });
    if !unpacked {
        r.push(Op::EnsureDownload {
            url:
                "https://github.com/lukas2511/dehydrated/releases/download/v0.6.5/dehydrated-0.6.5.tar.gz".to_owned(),
            dest: "/var/tmp/dehydrated-0.6.5.tar.gz".to_owned(),
            digest: "cedf07369517c317c4e1075540b94699".to_owned(),
            hash: HashType::MD5,
        });
        let mut argv: Vec<String> = Vec::new();
        argv.push("/opt/local/bin/gtar".to_owned());
        argv.push("-xz".to_owned());
        argv.push("-C".to_owned());
        argv.push("/opt/dehydrated/lib".to_owned());
        argv.push("-f".to_owned());
        argv.push("/var/tmp/dehydrated-0.6.5.tar.gz".to_owned());
        r.push(Op::Run { argv });
    }
    r.push(Op::EnsureFile {
        source: FileSource::Path(join_path(data_dir.as_str(), "scripts/dehydrated.sh")),
        dest: "/opt/dehydrated/bin/dehydrated".to_owned(),
        owner: owner_named("root"),
        group: owner_named("root"),
        mode: 0o755,
        create: Create::Always,
    });
    r.push(Op::EnsureFile {
        source: FileSource::Path(join_path(data_dir.as_str(), "scripts/hook.sh")),
        dest: "/var/opt/dehydrated/hook".to_owned(),
        owner: owner_named("root"),
        group: owner_named("root"),
        mode: 0o755,
        create: Create::Always,
    });
    r.push(Op::EnsureFile {
        source: FileSource::Path(join_path(data_dir.as_str(), "config")),
        dest: "/var/opt/dehydrated/config".to_owned(),
        owner: owner_named("root"),
        group: owner_named("root"),
        mode: 0o600,
        create: Create::Always,
    });
    r.push(Op::EnsureFile {
        source: FileSource::Path(join_path(data_dir.as_str(), "domains.txt")),
        dest: "/var/opt/dehydrated/domains.txt".to_owned(),
        owner: owner_named("root"),
        group: owner_named("root"),
        mode: 0o600,
        create: Create::Always,
    });
    match hookauth {
        Some(src) => {
            r.push(Op::EnsureFile {
                source: FileSource::Path(src.clone()),
                dest: "/var/opt/dehydrated/hookauthconfig".to_owned(),
                owner: owner_named("root"),
                group: owner_named("root"),
                mode: 0o600,
                create: Create::Always,
            });
        },
        None => {
            r.push(Op::EnsureRemoved { path: "/var/opt/dehydrated/hookauthconfig".to_owned() });
        },
    }
    r.push(Op::EnsureDir {
        path: "/var/www".to_owned(),
        owner: owner_named("root"),
        group: owner_named("www"),
        mode: 0o755,
    });
    r.push(Op::EnsureDir {
        path: "/var/www/users".to_owned(),
        owner: owner_named("root"),
        group: owner_named("www"),
        mode: 0o755,
    });
    r.push(Op::EnsureDir {
        path: "/var/www/htdocs".to_owned(),
        owner: owner_named("root"),
        group: owner_named("www"),
        mode: 0o750,
    });
    r.push(Op::EnsureDir {
        path: "/var/www/challenges".to_owned(),
        owner: owner_named("root"),
        group: owner_named("www"),
        mode: 0o750,
    });
    r.push(Op::EnsureFile {
        source: FileSource::Path(join_path(data_dir.as_str(), "nginx.conf")),
        dest: "/opt/local/etc/nginx/nginx.conf".to_owned(),
        owner: owner_named("root"),
        group: owner_named("root"),
        mode: 0o600,
        create: Create::Always,
    });
    r.push(Op::EnsureFile {
        source: FileSource::Path(join_path(data_dir.as_str(), "ssl.conf")),
        dest: "/opt/local/etc/nginx/ssl.conf".to_owned(),
        owner: owner_named("root"),
        group: owner_named("root"),
        mode: 0o600,
        create: Create::Always,
    });
    r
}

/// One converged nginx site or include directory: the directory itself, each
/// carried file installed, and files the role no longer carries removed.
#[verifier::rlimit(50)]
pub fn site_dir_ops(
    cfg_path: &String,
    data_path: &String,
    carried: &Vec<String>,
    stale: &Vec<String>,
) -> (r: Vec<Op>)
    ensures
        ({
            let nc = carried@.len() as int;
            let ns = stale@.len() as int;
            &&& r@.len() == 1 + nc + ns
            &&& dir_op(r@[0], cfg_path@, "root"@, "root"@, 0o700)
            &&& forall|q: int|
                0 <= q < nc ==> file_op(
                    #[trigger] r@[1 + q],
                    data_path@ + "/"@ + carried.deep_view()[q],
                    cfg_path@ + "/"@ + carried.deep_view()[q],
                    0o600,
                    Create::Always,
                )
            &&& forall|q: int|
                0 <= q < ns ==> (#[trigger] r@[1 + nc + q] matches Op::EnsureRemoved { path }
                    && path@ == cfg_path@ + "/"@ + stale.deep_view()[q])
        }),
{
    let mut r: Vec<Op> = Vec::new();
    r.push(Op::EnsureDir {
        path: cfg_path.clone(),
        owner: owner_named("root"),
        group: owner_named("root"),
        mode: 0o700,
    });
    let ghost cv = carried.deep_view();
    let mut q: usize = 0;
    while q < carried.len()
        invariant
            0 <= q <= carried@.len(),
            cv == carried.deep_view(),
            r@.len() == 1 + q,
            dir_op(r@[0], cfg_path@, "root"@, "root"@, 0o700),
            forall|j: int|
                0 <= j < q ==> file_op(
                    #[trigger] r@[1 + j],
                    data_path@ + "/"@ + cv[j],
                    cfg_path@ + "/"@ + cv[j],
                    0o600,
                    Create::Always,
                ),
        decreases carried@.len() - q,
    {
        r.push(Op::EnsureFile {
            source: FileSource::Path(join_path(data_path.as_str(), carried[q].as_str())),
            dest: join_path(cfg_path.as_str(), carried[q].as_str()),
            owner: owner_named("root"),
            group: owner_named("root"),
            mode: 0o600,
            create: Create::Always,
        });
        q += 1;
    }
    let ghost nc = carried@.len() as int;
    let ghost sv = stale.deep_view();
    let ghost pre = r@;
    let mut rem_ops: Vec<Op> = Vec::new();
    let mut q: usize = 0;
    while q < stale.len()
        invariant
            0 <= q <= stale@.len(),
            sv == stale.deep_view(),
            rem_ops@.len() == q,
            forall|j: int|
                0 <= j < q ==> (#[trigger] rem_ops@[j] matches Op::EnsureRemoved { path } && path@
                    == cfg_path@ + "/"@ + sv[j]),
        decreases stale@.len() - q,
    {
        proof {
            assert(sv[q as int] == stale@[q as int]@);
        }
        rem_ops.push(Op::EnsureRemoved {
            path: join_path(cfg_path.as_str(), stale[q].as_str()),
        });
        q += 1;
    }
    let ghost remv = rem_ops@;
    r.append(&mut rem_ops);
    proof {
        assert(r@ == pre + remv);
        assert(r@[0] == pre[0]);
        assert forall|j: int| 0 <= j < nc implies file_op(
            #[trigger] r@[1 + j],
            data_path@ + "/"@ + cv[j],
            cfg_path@ + "/"@ + cv[j],
            0o600,
            Create::Always,
        ) by {
            assert(r@[1 + j] == pre[1 + j]);
        }
        assert forall|j: int| 0 <= j < remv.len() implies (#[trigger] r@[1 + nc + j] matches
            Op::EnsureRemoved { path } && path@ == cfg_path@ + "/"@ + sv[j]) by {
            assert(r@[1 + nc + j] == remv[j]);
        }
    }
    r
}

/// The directories that configured log paths write into, each converged.
pub fn log_dir_ops(dirs: &Vec<String>) -> (r: Vec<Op>)
    ensures
        r@.len() == dirs@.len(),
        forall|q: int|
            0 <= q < dirs@.len() ==> dir_op(
                #[trigger] r@[q],
                dirs.deep_view()[q],
                "root"@,
                "root"@,
                0o750,
            ),
{
    let mut r: Vec<Op> = Vec::new();
    let ghost dv = dirs.deep_view();
    let mut q: usize = 0;
    while q < dirs.len()
        invariant
            0 <= q <= dirs@.len(),
            dv == dirs.deep_view(),
            r@.len() == q,
            forall|j: int| 0 <= j < q ==> dir_op(#[trigger] r@[j], dv[j], "root"@, "root"@, 0o750),
        decreases dirs@.len() - q,
    {
        r.push(Op::EnsureDir {
            path: dirs[q].clone(),
            owner: owner_named("root"),
            group: owner_named("root"),
            mode: 0o750,
        });
        q += 1;
    }
    r
}

/// The path of the live certificate chain for a domain.
pub fn cert_path(domain: &String, leaf: &str) -> (r: String)
    ensures
        r@ == "/var/opt/dehydrated/certs/"@ + domain@ + "/"@ + leaf@,
{
    let mut s = "/var/opt/dehydrated/certs/".to_owned();
    s.append(domain.as_str());
    s.append("/");
    s.append(leaf);
    s
}

/// The bootstrap plan run when no certificate exists yet: drop any stale
/// links, mint a short-lived self-signed certificate so nginx can start and
/// serve HTTP challenges, check the configuration, and enable nginx.
pub fn bootstrap_cert_ops(domain: &String) -> (r: Vec<Op>)
    ensures
        r@.len() == 5,
        (r@[0] matches Op::EnsureRemoved { path } && path@
            == "/opt/local/etc/nginx/fullchain.pem"@),
        (r@[1] matches Op::EnsureRemoved { path } && path@ == "/opt/local/etc/nginx/privkey.pem"@),
        (r@[2] matches Op::Run { argv } && argv.deep_view() =~~= seq![
            "/opt/local/bin/openssl"@,
            "req"@,
            "-x509"@,
            "-newkey"@,
            "rsa:4096"@,
            "-keyout"@,
            "/opt/local/etc/nginx/privkey.pem"@,
            "-out"@,
            "/opt/local/etc/nginx/fullchain.pem"@,
            "-days"@,
            "2"@,
            "-nodes"@,
            "-sha256"@,
            "-subj"@,
            "/CN="@ + domain@,
        ]),
        (r@[3] matches Op::Run { argv } && argv.deep_view() =~~= seq![
            "/opt/local/sbin/nginx"@,
            "-t"@,
        ]),
        (r@[4] matches Op::EnsureOnline { fmri, refresh } && fmri@ == "pkgsrc/nginx"@ && refresh
            == Refresh::Always),
{
    let mut r: Vec<Op> = Vec::new();
    r.push(Op::EnsureRemoved { path: "/opt/local/etc/nginx/fullchain.pem".to_owned() });
    r.push(Op::EnsureRemoved { path: "/opt/local/etc/nginx/privkey.pem".to_owned() });
    let mut subj = "/CN=".to_owned();
    subj.append(domain.as_str());
    let mut argv: Vec<String> = Vec::new();
    argv.push("/opt/local/bin/openssl".to_owned());
    argv.push("req".to_owned());
    argv.push("-x509".to_owned());
    argv.push("-newkey".to_owned());
    argv.push("rsa:4096".to_owned());
    argv.push("-keyout".to_owned());
    argv.push("/opt/local/etc/nginx/privkey.pem".to_owned());
    argv.push("-out".to_owned());
    argv.push("/opt/local/etc/nginx/fullchain.pem".to_owned());
    argv.push("-days".to_owned());
    argv.push("2".to_owned());
    argv.push("-nodes".to_owned());
    argv.push("-sha256".to_owned());
    argv.push("-subj".to_owned());
    argv.push(subj);
    r.push(Op::Run { argv });
    let mut argv: Vec<String> = Vec::new();
    argv.push("/opt/local/sbin/nginx".to_owned());
    argv.push("-t".to_owned());
    r.push(Op::Run { argv });
    r.push(Op::EnsureOnline { fmri: "pkgsrc/nginx".to_owned(), refresh: Refresh::Always });
    r
}

/// The closing plan of the role: point nginx at the live certificates, check
/// the configuration, enable nginx with a refresh, and keep the renewal cron
/// entry.
pub fn www_finish_ops(domain: &String) -> (r: Vec<Op>)
    ensures
        r@.len() == 5,
        link_op(
            r@[0],
            "/opt/local/etc/nginx/fullchain.pem"@,
            "/var/opt/dehydrated/certs/"@ + domain@ + "/"@ + "fullchain.pem"@,
        ),
        link_op(
            r@[1],
            "/opt/local/etc/nginx/privkey.pem"@,
            "/var/opt/dehydrated/certs/"@ + domain@ + "/"@ + "privkey.pem"@,
        ),
        (r@[2] matches Op::Run { argv } && argv.deep_view() =~~= seq![
            "/opt/local/sbin/nginx"@,
            "-t"@,
        ]),
        (r@[3] matches Op::EnsureOnline { fmri, refresh } && fmri@ == "pkgsrc/nginx"@ && refresh
            == Refresh::Always),
        (r@[4] matches Op::EnsureCron { user, tag, line } && user@ == "root"@ && tag@
            == "dehydrated"@ && line@ == "0 0 * * * /opt/dehydrated/bin/dehydrated --cron"@),
{
    let mut r: Vec<Op> = Vec::new();
    r.push(Op::EnsureSymlink {
        link: "/opt/local/etc/nginx/fullchain.pem".to_owned(),
        target: cert_path(domain, "fullchain.pem"),
        owner: owner_named("root"),
        group: owner_named("root"),
    });
    r.push(Op::EnsureSymlink {
        link: "/opt/local/etc/nginx/privkey.pem".to_owned(),
        target: cert_path(domain, "privkey.pem"),
        owner: owner_named("root"),
        group: owner_named("root"),
    });
    let mut argv: Vec<String> = Vec::new();
    argv.push("/opt/local/sbin/nginx".to_owned());
    argv.push("-t".to_owned());
    r.push(Op::Run { argv });
    r.push(Op::EnsureOnline { fmri: "pkgsrc/nginx".to_owned(), refresh: Refresh::Always });
    r.push(Op::EnsureCron {
        user: "root".to_owned(),
        tag: "dehydrated".to_owned(),
        line: "0 0 * * * /opt/dehydrated/bin/dehydrated --cron".to_owned(),
    });
    r
}

} // verus!
