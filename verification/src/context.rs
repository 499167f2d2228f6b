//! Per-role execution context helpers: where a role's data directory lives
//! and how paths inside it are formed.

use vstd::prelude::*;
use crate::types::Owner;

verus! {

/// Join a directory and a relative path with a single separator.
pub fn join_path(dir: &str, rel: &str) -> (r: String)
    ensures
        r@ == dir@ + "/"@ + rel@,
{
    let mut s = dir.to_owned();
    s.append("/");
    s.append(rel);
    s
}

/// The data directory of a (role, instance) pair: `<root>/<role>` or
/// `<root>/<role>/<instance>`.
pub fn data_dir(root: &str, role: &str, instance: &Option<String>) -> (r: String)
    ensures
        match *instance {
            None => r@ == root@ + "/"@ + role@,
            Some(i) => r@ == root@ + "/"@ + role@ + "/"@ + i@,
        },
{
    let base = join_path(root, role);
    match instance {
        None => base,
        Some(i) => join_path(base.as_str(), i.as_str()),
    }
}

/// Whether a desired owner is the name `n`.
pub open spec fn owner_is(o: Owner, n: Seq<char>) -> bool {
    o matches Owner::Name(s) && s@ == n
}

/// A desired owner given by name.
pub fn owner_named(n: &str) -> (r: Owner)
    ensures
        owner_is(r, n@),
{
    Owner::Name(n.to_owned())
}

} // verus!
