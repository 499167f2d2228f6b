//! The `base` role: root dotfiles, removal of stock shell profiles, a
//! baseline package set, and NTP client configuration on global zones.

use vstd::prelude::*;
use crate::context::{join_path, owner_is, owner_named};
use crate::errors::Error;
use crate::registry::{reg_has, Registry, RoleProvider};
use crate::types::{Create, FileSource, InstancePosture, Op, Refresh, OS};

verus! {

/// Whether this OS installs packages through IPS.
pub open spec fn uses_ips(os: OS) -> bool {
    os == OS::OmniOS || os == OS::OpenIndiana
}

/// One installed root dotfile: the data file `root/dotfiles/<n>` converged
/// onto `/root/.<n>`, root-owned and private.
pub open spec fn dotfile_op(op: Op, dir: Seq<char>, n: Seq<char>) -> bool {
    op matches Op::EnsureFile { source, dest, owner, group, mode, create }
        && (source matches FileSource::Path(p) && p@ == dir + "/"@ + "root/dotfiles/"@ + n)
        && dest@ == "/root/."@ + n && owner_is(owner, "root"@) && owner_is(group, "root"@)
        && mode == 0o600 && create == Create::Always
}

/// The removal of the stock `/root/.<n>` profile file.
pub open spec fn profile_removed_op(op: Op, n: Seq<char>) -> bool {
    op matches Op::EnsureRemoved { path } && path@ == "/root/."@ + n
}

/// The exact operation list of the `base` role.
pub open spec fn role_base_ops(
    ops: Seq<Op>,
    os: OS,
    is_gz: bool,
    dir: Seq<char>,
    dots: Seq<Seq<char>>,
) -> bool {
    let nd = dots.len() as int;
    let ips: int = if uses_ips(os) {
        2
    } else {
        0
    };
    let ntp = uses_ips(os) && is_gz;
    &&& ops.len() == 6 + nd + ips + (if ntp {
        2int
    } else {
        0
    })
    &&& (ops[0] matches Op::EnsureDir { path, owner, group, mode } && path@ == "/root"@
        && owner_is(owner, "root"@) && owner_is(group, "root"@) && mode == 0o700)
    &&& forall|d: int| 0 <= d < nd ==> dotfile_op(#[trigger] ops[1 + d], dir, dots[d])
    &&& profile_removed_op(ops[1 + nd], "cshrc"@)
    &&& profile_removed_op(ops[2 + nd], "irbrc"@)
    &&& profile_removed_op(ops[3 + nd], "login"@)
    &&& profile_removed_op(ops[4 + nd], "profile"@)
    &&& (uses_ips(os) ==> ops[5 + nd] == Op::UpdatePackagesIps && (ops[6 + nd] matches
        Op::EnsurePackagesIps { names } && names@.len() == 5 && names@[0]@
        == "system/library/c-runtime"@ && names@[1]@ == "system/header"@ && names@[2]@
        == "network/netcat"@ && names@[3]@ == "network/rsync"@ && names@[4]@
        == "system/monitoring/arcstat"@))
    &&& (ops[5 + nd + ips] matches Op::EnsurePackages { names } && names@.len() == 2 && names@[0]@
        == "tmux"@ && names@[1]@ == "git"@)
    &&& (ntp ==> (ops[6 + nd + ips] matches Op::EnsureFile { source, dest, owner, group, mode, create }
        && (source matches FileSource::Path(p) && p@ == dir + "/"@ + "ntp.conf"@) && dest@
        == "/etc/inet/ntp.conf"@ && owner_is(owner, "root"@) && owner_is(group, "bin"@) && mode
        == 0o644 && create == Create::Always) && (ops[7 + nd + ips] matches Op::EnsureOnline {
        fmri,
        refresh,
    } && fmri@ == "svc:/network/ntp:default"@ && refresh == Refresh::WhenPriorChanged))
}

/// The operations of the `base` role, from the observed OS, zone posture,
/// data directory and the dotfile names found under `root/dotfiles`.
pub fn role_base(os: OS, is_gz: bool, data_dir: &String, dotfiles: &Vec<String>) -> (r: Vec<Op>)
    ensures
        role_base_ops(r@, os, is_gz, data_dir@, dotfiles.deep_view()),
{
    let ghost dots = dotfiles.deep_view();
    let mut r: Vec<Op> = Vec::new();
    r.push(
        Op::EnsureDir {
            path: "/root".to_owned(),
            owner: owner_named("root"),
            group: owner_named("root"),
            mode: 0o700,
        },
    );
    let mut d: usize = 0;
    while d < dotfiles.len()
        invariant
            0 <= d <= dotfiles@.len(),
            dots == dotfiles.deep_view(),
            r@.len() == 1 + d,
            (r@[0] matches Op::EnsureDir { path, owner, group, mode } && path@ == "/root"@
                && owner_is(owner, "root"@) && owner_is(group, "root"@) && mode == 0o700),
            forall|q: int| 0 <= q < d ==> dotfile_op(#[trigger] r@[1 + q], data_dir@, dots[q]),
        decreases dotfiles@.len() - d,
    {
        let rel = join_path("root/dotfiles", dotfiles[d].as_str());
        let src = join_path(data_dir.as_str(), rel.as_str());
        let mut dst = "/root/.".to_owned();
        dst.append(dotfiles[d].as_str());
        proof {
            reveal_strlit("root/dotfiles");
            reveal_strlit("/");
            reveal_strlit("root/dotfiles/");
            assert(src@ == data_dir@ + "/"@ + ("root/dotfiles"@ + "/"@ + dots[d as int]));
            assert("root/dotfiles"@ + "/"@ =~= "root/dotfiles/"@);
            assert(data_dir@ + "/"@ + ("root/dotfiles"@ + "/"@ + dots[d as int]) =~= data_dir@
                + "/"@ + "root/dotfiles/"@ + dots[d as int]);
        }
        r.push(
            Op::EnsureFile {
                source: FileSource::Path(src),
                dest: dst,
                owner: owner_named("root"),
                group: owner_named("root"),
                mode: 0o600,
                create: Create::Always,
            },
        );
        d += 1;
    }
    let mut dst = "/root/.".to_owned();
    dst.append("cshrc");
    r.push(Op::EnsureRemoved { path: dst });
    let mut dst = "/root/.".to_owned();
    dst.append("irbrc");
    r.push(Op::EnsureRemoved { path: dst });
    let mut dst = "/root/.".to_owned();
    dst.append("login");
    r.push(Op::EnsureRemoved { path: dst });
    let mut dst = "/root/.".to_owned();
    dst.append("profile");
    r.push(Op::EnsureRemoved { path: dst });
    let ips = os == OS::OmniOS || os == OS::OpenIndiana;
    if ips {
        // Install a few packages included in the SmartOS base, for
        // consistency across distributions.
        r.push(Op::UpdatePackagesIps);
        let mut names: Vec<String> = Vec::new();
        names.push("system/library/c-runtime".to_owned());
        names.push("system/header".to_owned());
        names.push("network/netcat".to_owned());
        names.push("network/rsync".to_owned());
        names.push("system/monitoring/arcstat".to_owned());
        r.push(Op::EnsurePackagesIps { names });
    }
    let mut names: Vec<String> = Vec::new();
    names.push("tmux".to_owned());
    names.push("git".to_owned());
    r.push(Op::EnsurePackages { names });
    if ips && is_gz {
        // Converge the NTP client configuration and bounce the service
        // exactly when the file changed.
        r.push(
            Op::EnsureFile {
                source: FileSource::Path(join_path(data_dir.as_str(), "ntp.conf")),
                dest: "/etc/inet/ntp.conf".to_owned(),
                owner: owner_named("root"),
                group: owner_named("bin"),
                mode: 0o644,
                create: Create::Always,
            },
        );
        r.push(
            Op::EnsureOnline {
                fmri: "svc:/network/ntp:default".to_owned(),
                refresh: Refresh::WhenPriorChanged,
            },
        );
    }
    proof {
        assert(role_base_ops(r@, os, is_gz, data_dir@, dotfiles.deep_view()));
    }
    r
}

/// Register the `base` role; it takes no instance label.
pub fn register(registry: &mut Registry) -> (r: Result<(), Error>)
    ensures
        reg_has(old(registry).entries(), "base"@) ==> r == Err::<(), Error>(Error::DuplicateRole)
            && *final(registry) == *old(registry),
        !reg_has(old(registry).entries(), "base"@) ==> r == Ok::<(), Error>(()) && ({
            let e = final(registry).entries();
            &&& e == old(registry).entries().push(e.last())
            &&& e.last().name@ == "base"@
            &&& e.last().posture == InstancePosture::Prohibited
        }),
        old(registry).wf() ==> final(registry).wf(),
{
    registry.register(RoleProvider { name: "base".to_owned(), posture: InstancePosture::Prohibited })
}

} // verus!
