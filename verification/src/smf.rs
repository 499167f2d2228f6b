//! Decision logic of SMF service convergence.

use vstd::prelude::*;
use crate::errors::Error;

verus! {

/// Observed state of an SMF service instance.
#[derive(Clone, Copy, Debug, PartialEq, Eq, Structural)]
pub enum SmfState {
    Online,
    Offline,
    Disabled,
    Maintenance,
    Degraded,
    Absent,
}

/// The single administrative action `ensure_online` issues for one observed
/// state; after it the shell waits a bounded time for the service to settle.
#[derive(Clone, Copy, Debug, PartialEq, Eq, Structural)]
pub enum SmfAction {
    Nothing,
    Refresh,
    Clear,
    Enable,
    Disable,
    Wait,
}

/// Decide how to bring a service online.  A service in maintenance is
/// cleared; a disabled one is enabled; an offline or degraded one is waited
/// on; an online one is refreshed exactly when `refresh` is set (used when a
/// configuration file just changed) and otherwise left alone.
pub fn ensure_online_plan(state: SmfState, refresh: bool) -> (r: Result<SmfAction, Error>)
    ensures
        state == SmfState::Maintenance ==> r == Ok::<SmfAction, Error>(SmfAction::Clear),
        state == SmfState::Disabled ==> r == Ok::<SmfAction, Error>(SmfAction::Enable),
        state == SmfState::Offline || state == SmfState::Degraded ==> r == Ok::<
            SmfAction,
            Error,
        >(SmfAction::Wait),
        state == SmfState::Online ==> r == Ok::<SmfAction, Error>(
            if refresh {
                SmfAction::Refresh
            } else {
                SmfAction::Nothing
            },
        ),
        state == SmfState::Absent ==> r == Err::<SmfAction, Error>(Error::ServiceDidNotStart),
{
    match state {
        SmfState::Maintenance => Ok(SmfAction::Clear),
        SmfState::Disabled => Ok(SmfAction::Enable),
        SmfState::Offline => Ok(SmfAction::Wait),
        SmfState::Degraded => Ok(SmfAction::Wait),
        SmfState::Online => Ok(if refresh { SmfAction::Refresh } else { SmfAction::Nothing }),
        SmfState::Absent => Err(Error::ServiceDidNotStart),
    }
}

/// Decide how to take a service offline: anything not already disabled or
/// absent is disabled; a service in maintenance is cleared first.
pub fn ensure_offline_plan(state: SmfState) -> (r: SmfAction)
    ensures
        state == SmfState::Maintenance ==> r == SmfAction::Clear,
        state == SmfState::Disabled || state == SmfState::Absent ==> r == SmfAction::Nothing,
        state == SmfState::Online || state == SmfState::Offline || state == SmfState::Degraded
            ==> r == SmfAction::Disable,
{
    match state {
        SmfState::Maintenance => SmfAction::Clear,
        SmfState::Disabled => SmfAction::Nothing,
        SmfState::Absent => SmfAction::Nothing,
        SmfState::Online => SmfAction::Disable,
        SmfState::Offline => SmfAction::Disable,
        SmfState::Degraded => SmfAction::Disable,
    }
}

/// Judge the state the service settled into after the bounded wait of
/// `ensure_online`: anything but online is `ServiceDidNotStart`.
pub fn online_result(settled: SmfState) -> (r: Result<(), Error>)
    ensures
        r is Ok <==> settled == SmfState::Online,
        r is Err ==> r == Err::<(), Error>(Error::ServiceDidNotStart),
{
    if settled == SmfState::Online {
        Ok(())
    } else {
        Err(Error::ServiceDidNotStart)
    }
}

/// A second `ensure_online` over a service the first brought online, with no
/// new configuration change, plans no action.
pub proof fn lemma_ensure_online_idempotent()
    ensures
        forall|r: Result<SmfAction, Error>|
            call_ensures(ensure_online_plan, (SmfState::Online, false), r) ==> r == Ok::<
                SmfAction,
                Error,
            >(SmfAction::Nothing),
{
}

} // verus!
