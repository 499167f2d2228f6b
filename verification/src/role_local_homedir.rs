//! The `local_homedir` role: disable the automounter's control of `/home`
//! and serve home directories from a local ZFS dataset.

use vstd::prelude::*;
use crate::context::owner_is;
use crate::errors::Error;
use crate::registry::{reg_has, Registry, RoleProvider};
use crate::types::{Create, FileSource, InstancePosture, Op, Refresh, OS};

verus! {

/// The operations of the `local_homedir` role.  It is only supported on
/// OmniOS and OpenIndiana global zones; anywhere else it refuses with
/// `ConfigInvalid` before doing anything.
pub fn role_local_homedir(os: OS, is_gz: bool, data_dir: &String) -> (r: Result<Vec<Op>, Error>)
    ensures
        !(os == OS::OmniOS || os == OS::OpenIndiana) || !is_gz ==> r == Err::<Vec<Op>, Error>(
            Error::ConfigInvalid,
        ),
        (os == OS::OmniOS || os == OS::OpenIndiana) && is_gz ==> (r matches Ok(v) && {
            &&& v@.len() == 5
            &&& (v@[0] matches Op::EnsureRemoved { path } && path@ == "/etc/auto_home"@)
            &&& (v@[1] matches Op::EnsureFile { source, dest, owner, group, mode, create } && (
            source matches FileSource::Path(p) && p@ == data_dir@ + "/"@ + "auto_master"@) && dest@
                == "/etc/auto_master"@ && owner_is(owner, "root"@) && owner_is(group, "bin"@)
                && mode == 0o644 && create == Create::Always)
            &&& (v@[2] matches Op::EnsureOnline { fmri, refresh } && fmri@
                == "svc:/system/filesystem/autofs:default"@ && refresh == Refresh::Never)
            &&& (v@[3] matches Op::Run { argv } && argv@.len() == 2 && argv@[0]@
                == "/usr/sbin/automount"@ && argv@[1]@ == "-v"@)
            &&& (v@[4] matches Op::EnsureDataset { name, properties } && name@ == "rpool/home"@
                && properties@.len() == 1 && properties@[0].0@ == "mountpoint"@
                && properties@[0].1@ == "/home"@)
        }),
{
    if !(os == OS::OmniOS || os == OS::OpenIndiana) {
        return Err(Error::ConfigInvalid);
    }
    if !is_gz {
        return Err(Error::ConfigInvalid);
    }
    let mut r: Vec<Op> = Vec::new();
    // The automounter must stop managing /home before a dataset can be
    // mounted there.
    r.push(Op::EnsureRemoved { path: "/etc/auto_home".to_owned() });
    r.push(
        Op::EnsureFile {
            source: FileSource::Path(crate::context::join_path(data_dir.as_str(), "auto_master")),
            dest: "/etc/auto_master".to_owned(),
            owner: crate::context::owner_named("root"),
            group: crate::context::owner_named("bin"),
            mode: 0o644,
            create: Create::Always,
        },
    );
    r.push(
        Op::EnsureOnline {
            fmri: "svc:/system/filesystem/autofs:default".to_owned(),
            refresh: Refresh::Never,
        },
    );
    let mut argv: Vec<String> = Vec::new();
    argv.push("/usr/sbin/automount".to_owned());
    argv.push("-v".to_owned());
    r.push(Op::Run { argv });
    let mut properties: Vec<(String, String)> = Vec::new();
    properties.push(("mountpoint".to_owned(), "/home".to_owned()));
    r.push(Op::EnsureDataset { name: "rpool/home".to_owned(), properties });
    Ok(r)
}

/// Register the `local_homedir` role; it takes no instance label.
pub fn register(registry: &mut Registry) -> (r: Result<(), Error>)
    ensures
        reg_has(old(registry).entries(), "local_homedir"@) ==> r == Err::<(), Error>(
            Error::DuplicateRole,
        ) && *final(registry) == *old(registry),
        !reg_has(old(registry).entries(), "local_homedir"@) ==> r == Ok::<(), Error>(()) && ({
            let e = final(registry).entries();
            &&& e == old(registry).entries().push(e.last())
            &&& e.last().name@ == "local_homedir"@
            &&& e.last().posture == InstancePosture::Prohibited
        }),
        old(registry).wf() ==> final(registry).wf(),
{
    registry.register(
        RoleProvider { name: "local_homedir".to_owned(), posture: InstancePosture::Prohibited },
    )
}

} // verus!
