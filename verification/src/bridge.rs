//! The blocking bridge: how a thread outside the executor waits for the
//! result of a fiber.
//!
//! The waiting thread polls the fiber's monitor again and again. Each poll
//! shows one `MonitorState`, and `next_step` turns it into what the thread
//! does next: hand the result to its caller, sleep for a moment and poll
//! again, or give up because the executor itself has died. The thread does
//! the sleeping and the giving up; this module only decides.

use vstd::prelude::*;

verus! {

/// The monitor of a fiber, as the fibers crate hands it out. Opaque here:
/// the bridge carries it to `poll_step` and learns of it only what a poll
/// shows.
#[verifier::external_type_specification]
#[verifier::external_body]
#[verifier::reject_recursive_types(T)]
#[verifier::reject_recursive_types(E)]
pub struct ExMonitor<T, E>(fibers::sync::oneshot::Monitor<T, E>);

/// For how many milliseconds the waiting thread sleeps between two polls.
pub const POLL_INTERVAL_MILLIS: u64 = 1;

/// What one poll of a monitor shows of the fiber behind it.
#[derive(Debug, PartialEq, Eq)]
pub enum MonitorState<T, E> {
    /// The fiber is still running.
    Pending,
    /// The fiber has finished with this value.
    Ready(T),
    /// The fiber has finished with this error.
    Failed(E),
    /// The fiber is gone without a result: the executor has died.
    Aborted,
}

/// What the waiting thread does after one poll.
#[derive(Debug, PartialEq, Eq)]
pub enum BridgeStep<T, E> {
    /// Return this to the caller.
    Finish(Result<T, E>),
    /// Sleep for this many milliseconds, then poll again.
    Wait(u64),
    /// Give up: no fiber of this executor will ever finish.
    Abort,
}

/// The step that follows each state: a finished fiber's value or error goes
/// to the caller as it is, a running fiber is waited for, and a dead
/// executor ends the wait for good.
pub open spec fn step_after<T, E>(state: MonitorState<T, E>) -> BridgeStep<T, E> {
    match state {
        MonitorState::Pending => BridgeStep::Wait(POLL_INTERVAL_MILLIS),
        MonitorState::Ready(value) => BridgeStep::Finish(Ok(value)),
        MonitorState::Failed(error) => BridgeStep::Finish(Err(error)),
        MonitorState::Aborted => BridgeStep::Abort,
    }
}

/// Decides what the waiting thread does after a poll that showed `state`.
pub fn next_step<T, E>(state: MonitorState<T, E>) -> (step: BridgeStep<T, E>)
    ensures
        step == step_after(state),
{
    match state {
        MonitorState::Pending => BridgeStep::Wait(POLL_INTERVAL_MILLIS),
        MonitorState::Ready(value) => BridgeStep::Finish(Ok(value)),
        MonitorState::Failed(error) => BridgeStep::Finish(Err(error)),
        MonitorState::Aborted => BridgeStep::Abort,
    }
}

/// Calls `Future::poll`, as fibers implements it for `Monitor`, once, and
/// renames what it returns. Trusted, with nothing promised: what a poll shows
/// depends on how far the fiber has come.
#[verifier::external_body]
fn poll_monitor<T, E>(
    monitor: &mut fibers::sync::oneshot::Monitor<T, E>,
) -> (state: MonitorState<T, E>) {
    match futures::Future::poll(monitor) {
        Ok(futures::Async::NotReady) => MonitorState::Pending,
        Ok(futures::Async::Ready(value)) => MonitorState::Ready(value),
        Err(fibers::sync::oneshot::MonitorError::Failed(error)) => MonitorState::Failed(error),
        Err(fibers::sync::oneshot::MonitorError::Aborted) => MonitorState::Aborted,
    }
}

/// Polls the monitor once and decides what the waiting thread does next.
///
/// Which step comes back depends on the fiber; whenever it is a wait, it is
/// one of `POLL_INTERVAL_MILLIS`.
pub fn poll_step<T, E>(
    monitor: &mut fibers::sync::oneshot::Monitor<T, E>,
) -> (step: BridgeStep<T, E>)
    ensures
        step matches BridgeStep::Wait(millis) ==> millis == POLL_INTERVAL_MILLIS,
{
    let state = poll_monitor(monitor);
    next_step(state)
}

} // verus!
