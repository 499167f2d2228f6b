//! The `zfs_data` role: one compressed dataset mounted at `/data`.

use vstd::prelude::*;
use crate::errors::Error;
use crate::registry::{reg_has, Registry, RoleProvider};
use crate::types::{InstancePosture, Op};

verus! {

/// The operations of the `zfs_data` role: converge the host's data dataset
/// to exist with compression on and mountpoint `/data`.
pub fn role_zfs_data(dataset: &String) -> (r: Vec<Op>)
    ensures
        r@.len() == 1,
        (r@[0] matches Op::EnsureDataset { name, properties } && name@ == dataset@
            && properties@.len() == 2 && properties@[0].0@ == "compress"@ && properties@[0].1@
            == "on"@ && properties@[1].0@ == "mountpoint"@ && properties@[1].1@ == "/data"@),
{
    let mut properties: Vec<(String, String)> = Vec::new();
    properties.push(("compress".to_owned(), "on".to_owned()));
    properties.push(("mountpoint".to_owned(), "/data".to_owned()));
    let mut r: Vec<Op> = Vec::new();
    r.push(Op::EnsureDataset { name: dataset.clone(), properties });
    r
}

/// Register the `zfs_data` role; it takes no instance label.
pub fn register(registry: &mut Registry) -> (r: Result<(), Error>)
    ensures
        reg_has(old(registry).entries(), "zfs_data"@) ==> r == Err::<(), Error>(
            Error::DuplicateRole,
        ) && *final(registry) == *old(registry),
        !reg_has(old(registry).entries(), "zfs_data"@) ==> r == Ok::<(), Error>(()) && ({
            let e = final(registry).entries();
            &&& e == old(registry).entries().push(e.last())
            &&& e.last().name@ == "zfs_data"@
            &&& e.last().posture == InstancePosture::Prohibited
        }),
        old(registry).wf() ==> final(registry).wf(),
{
    registry.register(
        RoleProvider { name: "zfs_data".to_owned(), posture: InstancePosture::Prohibited },
    )
}

} // verus!
