//! Convergence engine for a declarative host-configuration agent.
//!
//! An operator describes the desired steady state of a machine as a set of
//! named roles; this library supplies the idempotent decision logic that
//! inspects observed state and computes the minimal mutations needed to
//! converge, plus the role registry and the apply driver that compose roles
//! into a single pass.  All system observation and mutation (filesystem,
//! child processes, downloads) is performed by a thin unverified shell that
//! feeds observations in and carries planned actions out.

pub mod bytes;
pub mod context;
pub mod cron;
pub mod digest;
pub mod download;
pub mod errors;
pub mod fsops;
pub mod pkg;
pub mod probe;
pub mod registry;
pub mod role_base;
pub mod role_local_homedir;
pub mod role_pkgsrc;
pub mod role_users;
pub mod role_www;
pub mod role_zfs_data;
pub mod smf;
pub mod types;
pub mod zfs;

use vstd::prelude::*;

verus! {

} // verus!
