//! The guard of one started process.
//!
//! A guard records whether its process has been seen to finish. From that it
//! decides the one thing that must not go wrong: a process that was not seen
//! to finish is asked to terminate when its guard is released, and no process
//! is asked twice or after it has finished.

use crate::error::{OsError, WaitError};
use crate::status::ExitStatus;
use vstd::prelude::*;

verus! {

/// What one non-blocking query of the process state gives: `Ok(None)` while
/// the process runs, `Ok(Some(status))` once it has ended, `Err` where the
/// query itself failed.
pub type PollResult = Result<Option<ExitStatus>, OsError>;

/// Where a guarded process stands, as far as its guard knows.
#[derive(Clone, Copy, Debug, PartialEq, Eq, Structural)]
pub enum Lifecycle {
    /// Started and not yet seen to finish.
    Live,
    /// Seen to finish with this status.
    Exited(ExitStatus),
    /// Asked to terminate when the guard was released.
    Terminated,
}

impl Lifecycle {
    /// The status that a guard in this state has remembered.
    pub open spec fn remembered(self) -> Option<ExitStatus> {
        match self {
            Lifecycle::Exited(status) => Some(status),
            _ => None,
        }
    }

    /// What a poll reports when the system answered `observed`: the
    /// remembered status once there is one, the system's answer before.
    pub open spec fn answer(self, observed: PollResult) -> PollResult {
        match self {
            Lifecycle::Exited(status) => Ok(Some(status)),
            _ => observed,
        }
    }

    /// The state after a poll that the system answered with `observed`. Only
    /// a live guard that sees an exit status changes.
    pub open spec fn after_poll(self, observed: PollResult) -> Lifecycle {
        match (self, observed) {
            (Lifecycle::Live, Ok(Some(status))) => Lifecycle::Exited(status),
            _ => self,
        }
    }

    /// Whether releasing a guard in this state sends a termination request.
    pub open spec fn must_terminate(self) -> bool {
        self is Live
    }

    /// The state after the guard was released.
    pub open spec fn after_release(self) -> Lifecycle {
        match self {
            Lifecycle::Live => Lifecycle::Terminated,
            _ => self,
        }
    }
}

/// The guard's record for one process.
#[derive(Debug)]
pub struct Guard {
    state: Lifecycle,
}

impl View for Guard {
    type V = Lifecycle;

    closed spec fn view(&self) -> Lifecycle {
        self.state
    }
}

impl Guard {
    /// Takes the result of starting the process. A started process gets a
    /// live guard; a failed start is handed back as it came and leaves
    /// nothing to guard.
    pub fn from_launch(launched: Result<(), OsError>) -> (r: Result<Guard, WaitError>)
        ensures
            match launched {
                Ok(_) => r matches Ok(guard) && guard@ == Lifecycle::Live,
                Err(e) => r matches Err(err) && err == WaitError::Spawn(e),
            },
    {
        match launched {
            Ok(_) => Ok(Guard { state: Lifecycle::Live }),
            Err(e) => Err(WaitError::Spawn(e)),
        }
    }

    /// Where the process stands.
    pub fn lifecycle(&self) -> (state: Lifecycle)
        ensures
            state == self@,
    {
        self.state
    }

    /// The exit status seen earlier, if any. With `Some`, the caller has
    /// nothing left to ask the system.
    pub fn remembered(&self) -> (status: Option<ExitStatus>)
        ensures
            status == self@.remembered(),
    {
        match self.state {
            Lifecycle::Exited(status) => Some(status),
            _ => None,
        }
    }

    /// Records what the system answered to a poll and returns what the poll
    /// reports. The first exit status seen is kept for good.
    pub fn record(&mut self, observed: PollResult) -> (reported: PollResult)
        ensures
            final(self)@ == old(self)@.after_poll(observed),
            reported == old(self)@.answer(observed),
    {
        match self.state {
            Lifecycle::Exited(status) => Ok(Some(status)),
            Lifecycle::Live => {
                if let Ok(Some(status)) = observed {
                    self.state = Lifecycle::Exited(status);
                }
                observed
            },
            Lifecycle::Terminated => observed,
        }
    }

    /// Releases the guard. Returns `true` where the caller must now send the
    /// termination request: exactly for a process not seen to finish and not
    /// asked before.
    pub fn release(&mut self) -> (terminate: bool)
        ensures
            terminate == old(self)@.must_terminate(),
            final(self)@ == old(self)@.after_release(),
    {
        match self.state {
            Lifecycle::Live => {
                self.state = Lifecycle::Terminated;
                true
            },
            _ => false,
        }
    }
}

/// One thing a caller does with a guard.
#[derive(Clone, Copy, Debug, PartialEq, Eq)]
pub enum GuardOp {
    /// A poll that the system answered with this result.
    Poll(PollResult),
    /// A release of the guard.
    Release,
}

/// The state that one operation leaves behind.
pub open spec fn apply(state: Lifecycle, op: GuardOp) -> Lifecycle {
    match op {
        GuardOp::Poll(observed) => state.after_poll(observed),
        GuardOp::Release => state.after_release(),
    }
}

/// Whether one operation sends a termination request.
pub open spec fn fires(state: Lifecycle, op: GuardOp) -> bool {
    op is Release && state.must_terminate()
}

/// The state after a history of operations on a guard that began in `start`.
pub open spec fn state_after(start: Lifecycle, ops: Seq<GuardOp>) -> Lifecycle
    decreases ops.len(),
{
    if ops.len() == 0 {
        start
    } else {
        apply(state_after(start, ops.drop_last()), ops.last())
    }
}

/// How many termination requests a history of operations sends.
pub open spec fn requests(start: Lifecycle, ops: Seq<GuardOp>) -> nat
    decreases ops.len(),
{
    if ops.len() == 0 {
        0
    } else {
        let before = state_after(start, ops.drop_last());
        let earlier = requests(start, ops.drop_last());
        if fires(before, ops.last()) {
            earlier + 1
        } else {
            earlier
        }
    }
}

/// A guard that is no longer live never becomes live again and never asks
/// for termination, whatever is done with it.
pub proof fn lemma_resolved_guard_is_quiet(start: Lifecycle, ops: Seq<GuardOp>)
    requires
        !(start is Live),
    ensures
        state_after(start, ops) == start,
        requests(start, ops) == 0,
    decreases ops.len(),
{
    if ops.len() > 0 {
        lemma_resolved_guard_is_quiet(start, ops.drop_last());
    }
}

/// Over any history of polls and releases a guard sends at most one
/// termination request; it has sent one exactly when it ends up terminated,
/// and a guard that has sent none and is not live holds an exit status.
pub proof fn lemma_at_most_one_request(ops: Seq<GuardOp>)
    ensures
        requests(Lifecycle::Live, ops) <= 1,
        requests(Lifecycle::Live, ops) == 1 <==> state_after(Lifecycle::Live, ops) is Terminated,
    decreases ops.len(),
{
    if ops.len() > 0 {
        lemma_at_most_one_request(ops.drop_last());
    }
}

/// Once a guard has seen its process finish, no termination request was sent
/// before and none is sent later: a history whose first `seen` operations
/// leave the guard with an exit status holds no request at all.
pub proof fn lemma_no_request_once_exited(ops: Seq<GuardOp>, seen: int)
    requires
        0 <= seen <= ops.len(),
        state_after(Lifecycle::Live, ops.take(seen)) is Exited,
    ensures
        requests(Lifecycle::Live, ops) == 0,
        state_after(Lifecycle::Live, ops) == state_after(Lifecycle::Live, ops.take(seen)),
    decreases ops.len() - seen,
{
    if seen == ops.len() {
        assert(ops.take(seen) =~= ops);
        lemma_at_most_one_request(ops);
    } else {
        let shorter = ops.drop_last();
        assert(shorter.take(seen) =~= ops.take(seen));
        lemma_no_request_once_exited(shorter, seen);
    }
}

/// True for a poll that came back empty or failed: an operation that is no
/// release and shows no exit status.
pub open spec fn sees_no_exit(op: GuardOp) -> bool {
    match op {
        GuardOp::Poll(Ok(Some(_))) => false,
        GuardOp::Poll(_) => true,
        GuardOp::Release => false,
    }
}

/// A guard that is released without having seen its process finish sends
/// the termination request at that release, and it is the only one: however
/// many polls came back empty or failed before.
pub proof fn lemma_unfinished_release_terminates(ops: Seq<GuardOp>)
    requires
        forall|i: int| 0 <= i < ops.len() ==> sees_no_exit(#[trigger] ops[i]),
    ensures
        state_after(Lifecycle::Live, ops) is Live,
        requests(Lifecycle::Live, ops) == 0,
        fires(state_after(Lifecycle::Live, ops), GuardOp::Release),
        requests(Lifecycle::Live, ops.push(GuardOp::Release)) == 1,
    decreases ops.len(),
{
    if ops.len() > 0 {
        let shorter = ops.drop_last();
        assert forall|i: int| 0 <= i < shorter.len() implies sees_no_exit(#[trigger] shorter[i]) by {
            assert(shorter[i] == ops[i]);
        }
        lemma_unfinished_release_terminates(shorter);
        assert(sees_no_exit(ops[ops.len() - 1]));
    }
    let released = ops.push(GuardOp::Release);
    assert(released.drop_last() =~= ops);
    assert(released.last() == GuardOp::Release);
    assert(requests(Lifecycle::Live, released) == requests(Lifecycle::Live, ops) + 1);
}

} // verus!
