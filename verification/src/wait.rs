//! The cancellable wait, one decision at a time.
//!
//! The caller runs the loop: it reads the cancellation flag, polls the
//! guarded process and sleeps. After each reading and each poll it calls
//! [`step`], which says what comes next.

use crate::error::{OsError, WaitError};
use crate::guard::PollResult;
use crate::status::ExitStatus;
use vstd::prelude::*;

verus! {

/// Pause between two polls of a process that is still running.
pub const POLL_INTERVAL_MILLIS: u64 = 400;

/// State of the wait.
#[derive(Clone, Copy, Debug, PartialEq, Eq, Structural)]
pub enum WaitState {
    /// Neither finished nor cancelled so far.
    Running,
    /// The process was seen to finish.
    Finished(ExitStatus),
    /// Cancellation was seen first.
    Interrupted,
    /// A poll failed, with this failure.
    Failed(OsError),
}

/// What the caller observed.
#[derive(Clone, Copy, Debug, PartialEq, Eq)]
pub enum Event {
    /// A reading of the cancellation flag: `true` means keep running.
    Flag(bool),
    /// The report of a poll.
    Polled(PollResult),
}

/// What the caller does next.
#[derive(Clone, Copy, Debug, PartialEq, Eq, Structural)]
pub enum Action {
    /// Poll the process and report with [`Event::Polled`].
    Poll,
    /// Sleep this many milliseconds, then read the flag again.
    Sleep(u64),
    /// Leave the loop; the state holds the outcome.
    Stop,
}

impl WaitState {
    /// The result of a wait that has ended, `None` while it runs.
    pub open spec fn outcome_spec(self) -> Option<Result<ExitStatus, WaitError>> {
        match self {
            WaitState::Running => None,
            WaitState::Finished(status) => Some(Ok(status)),
            WaitState::Interrupted => Some(Err(WaitError::Interrupted)),
            WaitState::Failed(e) => Some(Err(WaitError::Poll(e))),
        }
    }

    #[verifier::when_used_as_spec(outcome_spec)]
    pub fn outcome(self) -> (outcome: Option<Result<ExitStatus, WaitError>>)
        ensures
            outcome == self.outcome_spec(),
    {
        match self {
            WaitState::Running => None,
            WaitState::Finished(status) => Some(Ok(status)),
            WaitState::Interrupted => Some(Err(WaitError::Interrupted)),
            WaitState::Failed(e) => Some(Err(WaitError::Poll(e))),
        }
    }

    /// True until the wait has ended.
    pub fn is_running(self) -> (yes: bool)
        ensures
            yes == (self is Running),
    {
        match self {
            WaitState::Running => true,
            _ => false,
        }
    }
}

/// The state that follows `state` on `event`. A wait that has ended stays as
/// it is. A running wait ends on a cleared flag, on an exit status and on a
/// failed poll, and goes on otherwise.
pub open spec fn next_state(state: WaitState, event: Event) -> WaitState {
    match (state, event) {
        (WaitState::Running, Event::Flag(false)) => WaitState::Interrupted,
        (WaitState::Running, Event::Polled(Ok(Some(status)))) => WaitState::Finished(status),
        (WaitState::Running, Event::Polled(Err(e))) => WaitState::Failed(e),
        _ => state,
    }
}

/// What the caller does after `event` arrived in `state`: poll after a flag
/// that still says run, sleep one interval after a poll that found the
/// process running, stop in every other case.
pub open spec fn next_action(state: WaitState, event: Event) -> Action {
    match (state, event) {
        (WaitState::Running, Event::Flag(true)) => Action::Poll,
        (WaitState::Running, Event::Polled(Ok(None))) => Action::Sleep(POLL_INTERVAL_MILLIS),
        _ => Action::Stop,
    }
}

/// One decision of the wait loop.
pub fn step(state: WaitState, event: Event) -> (r: (WaitState, Action))
    ensures
        r.0 == next_state(state, event),
        r.1 == next_action(state, event),
{
    match state {
        WaitState::Running => match event {
            Event::Flag(true) => (WaitState::Running, Action::Poll),
            Event::Flag(false) => (WaitState::Interrupted, Action::Stop),
            Event::Polled(Ok(None)) => (WaitState::Running, Action::Sleep(POLL_INTERVAL_MILLIS)),
            Event::Polled(Ok(Some(status))) => (WaitState::Finished(status), Action::Stop),
            Event::Polled(Err(e)) => (WaitState::Failed(e), Action::Stop),
        },
        _ => (state, Action::Stop),
    }
}

} // verus!
