//! The `pkgsrc` role: bootstrap pkgsrc by downloading a digest-verified
//! tarball and extracting it over `/`, unless `pkgin` is already usable.

use vstd::prelude::*;
use crate::errors::Error;
use crate::registry::{reg_has, Registry, RoleProvider};
use crate::types::{FileInfo, HashType, InstancePosture, Op};

verus! {

/// The role descriptor of `pkgsrc`: the bootstrap tarball name, its SHA-1
/// digest, and the base URL it is fetched from.
pub struct PkgsrcConfig {
    pub tar: String,
    pub sha: String,
    pub baseurl: String,
}

/// Whether the observed `pkgin` binary makes the bootstrap unnecessary: it
/// exists and its owner may execute it.
pub open spec fn pkgin_usable(observed: Option<FileInfo>) -> bool {
    match observed {
        Some(fi) => fi.mode & 0o100 != 0,
        None => false,
    }
}

/// The operations of the `pkgsrc` role, from the observation of
/// `/opt/local/bin/pkgin`: nothing when pkgin is already usable; otherwise a
/// digest-verified download of the bootstrap tarball to `/tmp`, an
/// extraction over `/`, and a catalog refresh.
pub fn role_pkgsrc(pkgin: &Option<FileInfo>, cfg: &PkgsrcConfig) -> (r: Vec<Op>)
    ensures
        pkgin_usable(*pkgin) ==> r@.len() == 0,
        !pkgin_usable(*pkgin) ==> {
            &&& r@.len() == 3
            &&& (r@[0] matches Op::EnsureDownload { url, dest, digest, hash } && url@
                == cfg.baseurl@ + cfg.tar@ && dest@ == "/tmp/"@ + cfg.tar@ && digest@ == cfg.sha@
                && hash == HashType::SHA1)
            &&& (r@[1] matches Op::Run { argv } && argv@.len() == 5 && argv@[0]@
                == "/usr/sbin/tar"@ && argv@[1]@ == "-zxpf"@ && argv@[2]@ == "/tmp/"@ + cfg.tar@
                && argv@[3]@ == "-C"@ && argv@[4]@ == "/"@)
            &&& r@[2] == Op::UpdatePackages
        },
{
    let mut r: Vec<Op> = Vec::new();
    let usable = match pkgin {
        Some(fi) => fi.mode & 0o100 != 0,
        None => false,
    };
    if usable {
        return r;
    }
    let mut dest = "/tmp/".to_owned();
    dest.append(cfg.tar.as_str());
    let mut url = cfg.baseurl.clone();
    url.append(cfg.tar.as_str());
    r.push(
        Op::EnsureDownload { url, dest: dest.clone(), digest: cfg.sha.clone(), hash: HashType::SHA1 },
    );
    let mut argv: Vec<String> = Vec::new();
    argv.push("/usr/sbin/tar".to_owned());
    argv.push("-zxpf".to_owned());
    argv.push(dest);
    argv.push("-C".to_owned());
    argv.push("/".to_owned());
    r.push(Op::Run { argv });
    r.push(Op::UpdatePackages);
    r
}

/// Register the `pkgsrc` role; it takes no instance label.
pub fn register(registry: &mut Registry) -> (r: Result<(), Error>)
    ensures
        reg_has(old(registry).entries(), "pkgsrc"@) ==> r == Err::<(), Error>(Error::DuplicateRole)
            && *final(registry) == *old(registry),
        !reg_has(old(registry).entries(), "pkgsrc"@) ==> r == Ok::<(), Error>(()) && ({
            let e = final(registry).entries();
            &&& e == old(registry).entries().push(e.last())
            &&& e.last().name@ == "pkgsrc"@
            &&& e.last().posture == InstancePosture::Prohibited
        }),
        old(registry).wf() ==> final(registry).wf(),
{
    registry.register(
        RoleProvider { name: "pkgsrc".to_owned(), posture: InstancePosture::Prohibited },
    )
}

} // verus!
