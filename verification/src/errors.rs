//! Error taxonomy of the convergence engine.

use vstd::prelude::*;

verus! {

/// Everything that can go wrong while converging a host.
///
/// Primitives never swallow errors: each decision function that can refuse
/// its input says in its contract exactly which variant it returns and when.
#[derive(Clone, Copy, Debug, PartialEq, Eq, Structural)]
pub enum Error {
    /// A child process exited non-zero.
    ExternalFailure,
    /// A filesystem object exists but has the wrong kind.
    TypeMismatch,
    /// A downloaded artifact failed digest verification.
    DigestMismatch,
    /// An SMF transition did not complete within the bounded wait.
    ServiceDidNotStart,
    /// A role descriptor could not be parsed or violated a schema constraint.
    ConfigInvalid,
    /// A role was registered twice under one name.
    DuplicateRole,
    /// The host configuration names a role that was never registered.
    UnknownRole,
    /// Advisory lock contention: another apply pass holds the lock.
    AlreadyRunning,
    /// Any other filesystem or OS failure.
    IOFailure,
}

impl Error {
    /// A short stable label for diagnostics; the unverified shell prints it.
    pub fn label(&self) -> (r: &'static str)
        ensures
            r@ == self.spec_label(),
    {
        match self {
            Error::ExternalFailure => "external failure",
            Error::TypeMismatch => "type mismatch",
            Error::DigestMismatch => "digest mismatch",
            Error::ServiceDidNotStart => "service did not start",
            Error::ConfigInvalid => "config invalid",
            Error::DuplicateRole => "duplicate role",
            Error::UnknownRole => "unknown role",
            Error::AlreadyRunning => "already running",
            Error::IOFailure => "i/o failure",
        }
    }

    pub open spec fn spec_label(&self) -> Seq<char> {
        match self {
            Error::ExternalFailure => "external failure"@,
            Error::TypeMismatch => "type mismatch"@,
            Error::DigestMismatch => "digest mismatch"@,
            Error::ServiceDidNotStart => "service did not start"@,
            Error::ConfigInvalid => "config invalid"@,
            Error::DuplicateRole => "duplicate role"@,
            Error::UnknownRole => "unknown role"@,
            Error::AlreadyRunning => "already running"@,
            Error::IOFailure => "i/o failure"@,
        }
    }
}

} // verus!
