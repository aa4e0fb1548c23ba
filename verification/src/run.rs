//! Whole runs, stated and played against a script.
//!
//! A run is decided by what its loop would observe, iteration by iteration:
//! the reading of the cancellation flag and the answer of the system to a
//! poll. [`supervise`] says in closed form how such a run ends, how often it
//! polls and sleeps, and whether a termination request is sent.
//! [`simulate`] plays the same observations through the guard and the wait
//! loop of this crate, without a process and without sleeping, and is proved
//! to end as [`supervise`] says. The lemmas at the end state what holds of
//! every run.

use crate::error::{OsError, WaitError};
use crate::guard::{Guard, Lifecycle, PollResult};
use crate::status::ExitStatus;
use crate::wait::{step, Action, Event, WaitState};
use vstd::prelude::*;

verus! {

/// What one iteration of the loop would observe.
#[derive(Clone, Copy, Debug, PartialEq, Eq)]
pub struct Tick {
    /// The cancellation flag as the iteration reads it: `true` means keep
    /// running.
    pub running: bool,
    /// What the system answers if the iteration gets to poll.
    pub polled: PollResult,
}

/// How a run went.
pub struct Summary {
    /// The result, `None` where the observations ran out first.
    pub outcome: Option<Result<ExitStatus, WaitError>>,
    /// Polls made.
    pub polls: nat,
    /// Intervals slept.
    pub sleeps: nat,
    /// Termination requests sent to the process.
    pub terminations: nat,
}

/// A [`Summary`] in machine integers.
#[derive(Clone, Copy, Debug, PartialEq, Eq)]
pub struct Report {
    pub outcome: Option<Result<ExitStatus, WaitError>>,
    pub polls: usize,
    pub sleeps: usize,
    pub terminations: usize,
}

impl View for Report {
    type V = Summary;

    open spec fn view(&self) -> Summary {
        Summary {
            outcome: self.outcome,
            polls: self.polls as nat,
            sleeps: self.sleeps as nat,
            terminations: self.terminations as nat,
        }
    }
}

impl Tick {
    /// An iteration that changes nothing: the flag says run and the process
    /// is still running.
    pub open spec fn quiet(self) -> bool {
        self.running && self.polled == Ok::<Option<ExitStatus>, OsError>(None)
    }

    /// How a wait goes whose first iteration is this one, for an iteration
    /// that is not quiet. A cleared flag wins before any poll and has the
    /// process terminated; an exit status is returned as it is and nothing
    /// is terminated; a failed poll is fatal and has the process terminated.
    pub open spec fn ending(self) -> Summary {
        if !self.running {
            Summary {
                outcome: Some(Err(WaitError::Interrupted)),
                polls: 0,
                sleeps: 0,
                terminations: 1,
            }
        } else {
            match self.polled {
                Ok(Some(status)) => Summary {
                    outcome: Some(Ok(status)),
                    polls: 1,
                    sleeps: 0,
                    terminations: 0,
                },
                Ok(None) => Summary { outcome: None, polls: 1, sleeps: 1, terminations: 0 },
                Err(e) => Summary {
                    outcome: Some(Err(WaitError::Poll(e))),
                    polls: 1,
                    sleeps: 0,
                    terminations: 1,
                },
            }
        }
    }
}

impl Summary {
    /// The same run after `n` quiet iterations more at its start.
    pub open spec fn later(self, n: nat) -> Summary {
        Summary { polls: self.polls + n, sleeps: self.sleeps + n, ..self }
    }
}

/// How the wait on a started process goes: every quiet iteration costs one
/// poll and one sleep, the first other iteration ends it.
pub open spec fn wait_over(ticks: Seq<Tick>) -> Summary
    decreases ticks.len(),
{
    if ticks.len() == 0 {
        Summary { outcome: None, polls: 0, sleeps: 0, terminations: 0 }
    } else if ticks[0].quiet() {
        wait_over(ticks.skip(1)).later(1)
    } else {
        ticks[0].ending()
    }
}

/// How a whole run goes. A start that failed is handed back at once: the
/// loop is never entered and there is nothing to terminate.
pub open spec fn supervise(launched: Result<(), OsError>, ticks: Seq<Tick>) -> Summary {
    match launched {
        Err(e) => Summary {
            outcome: Some(Err(WaitError::Spawn(e))),
            polls: 0,
            sleeps: 0,
            terminations: 0,
        },
        Ok(_) => wait_over(ticks),
    }
}

/// A wait that begins with `n` quiet iterations goes as the wait on the rest
/// does, `n` polls and sleeps later.
pub proof fn lemma_quiet_prefix(ticks: Seq<Tick>, n: int)
    requires
        0 <= n <= ticks.len(),
        forall|j: int| 0 <= j < n ==> (#[trigger] ticks[j]).quiet(),
    ensures
        wait_over(ticks) == wait_over(ticks.skip(n)).later(n as nat),
    decreases n,
{
    if n == 0 {
        assert(ticks.skip(0) =~= ticks);
    } else {
        let rest = ticks.skip(1);
        assert forall|j: int| 0 <= j < n - 1 implies (#[trigger] rest[j]).quiet() by {
            assert(rest[j] == ticks[j + 1]);
        }
        lemma_quiet_prefix(rest, n - 1);
        assert(rest.skip(n - 1) =~= ticks.skip(n));
    }
}

/// Plays a run against scripted observations. The guard and the wait loop
/// decide as they do with a real process; the script stands in for the flag
/// and the system, and nothing sleeps.
pub fn simulate(launched: Result<(), OsError>, ticks: &Vec<Tick>) -> (report: Report)
    ensures
        report@ == supervise(launched, ticks@),
{
    let mut guard = match Guard::from_launch(launched) {
        Ok(guard) => guard,
        Err(err) => {
            return Report { outcome: Some(Err(err)), polls: 0, sleeps: 0, terminations: 0 };
        },
    };
    let mut state = WaitState::Running;
    let mut i: usize = 0;
    while i < ticks.len()
        invariant
            i <= ticks.len(),
            state == WaitState::Running,
            guard@ == Lifecycle::Live,
            launched is Ok,
            forall|j: int| 0 <= j < i ==> (#[trigger] ticks@[j]).quiet(),
        decreases ticks.len() - i,
    {
        let tick = ticks[i];
        proof {
            lemma_quiet_prefix(ticks@, i as int);
            assert(ticks@.skip(i as int)[0] == tick);
        }
        let mut polls: usize = i;
        let (after_flag, mut action) = step(state, Event::Flag(tick.running));
        state = after_flag;
        if let Action::Poll = action {
            polls = i + 1;
            let reported = guard.record(tick.polled);
            let (after_poll, then) = step(state, Event::Polled(reported));
            state = after_poll;
            action = then;
        }
        match action {
            Action::Sleep(_) => {},
            _ => {
                let terminations: usize = if guard.release() {
                    1
                } else {
                    0
                };
                return Report { outcome: state.outcome(), polls, sleeps: i, terminations };
            },
        }
        i += 1;
    }
    proof {
        lemma_quiet_prefix(ticks@, i as int);
    }
    Report { outcome: None, polls: i, sleeps: i, terminations: 0 }
}

/// A process that exits before cancellation is seen has its exit status
/// returned exactly, and no termination request is sent. Here the iterations
/// before `last` are quiet and iteration `last` reads a flag that still says
/// run and polls the exit status.
pub proof fn lemma_natural_exit_is_returned(ticks: Seq<Tick>, last: int, status: ExitStatus)
    requires
        0 <= last < ticks.len(),
        forall|j: int| 0 <= j < last ==> (#[trigger] ticks[j]).quiet(),
        ticks[last].running,
        ticks[last].polled == Ok::<Option<ExitStatus>, OsError>(Some(status)),
    ensures
        supervise(Ok(()), ticks).outcome == Some(Ok::<ExitStatus, WaitError>(status)),
        supervise(Ok(()), ticks).terminations == 0,
        supervise(Ok(()), ticks).polls == last + 1,
        supervise(Ok(()), ticks).sleeps == last,
{
    lemma_quiet_prefix(ticks, last);
    assert(ticks.skip(last)[0] == ticks[last]);
}

/// A flag that is cleared before the process was seen to exit ends the run
/// as interrupted, at the iteration that reads it and before any further
/// poll or sleep, and exactly one termination request is sent. What the
/// process did in the meantime plays no part.
pub proof fn lemma_cancellation_interrupts(ticks: Seq<Tick>, cleared: int)
    requires
        0 <= cleared < ticks.len(),
        forall|j: int| 0 <= j < cleared ==> (#[trigger] ticks[j]).quiet(),
        !ticks[cleared].running,
    ensures
        supervise(Ok(()), ticks).outcome == Some(
            Err::<ExitStatus, WaitError>(WaitError::Interrupted),
        ),
        supervise(Ok(()), ticks).terminations == 1,
        supervise(Ok(()), ticks).polls == cleared,
        supervise(Ok(()), ticks).sleeps == cleared,
{
    lemma_quiet_prefix(ticks, cleared);
    assert(ticks.skip(cleared)[0] == ticks[cleared]);
}

/// A poll that fails ends the run with that failure, and the process, not
/// seen to finish, is still sent its termination request, once.
pub proof fn lemma_poll_failure_terminates(ticks: Seq<Tick>, failed: int, failure: OsError)
    requires
        0 <= failed < ticks.len(),
        forall|j: int| 0 <= j < failed ==> (#[trigger] ticks[j]).quiet(),
        ticks[failed].running,
        ticks[failed].polled == Err::<Option<ExitStatus>, OsError>(failure),
    ensures
        supervise(Ok(()), ticks).outcome == Some(
            Err::<ExitStatus, WaitError>(WaitError::Poll(failure)),
        ),
        supervise(Ok(()), ticks).terminations == 1,
        supervise(Ok(()), ticks).polls == failed + 1,
        supervise(Ok(()), ticks).sleeps == failed,
{
    lemma_quiet_prefix(ticks, failed);
    assert(ticks.skip(failed)[0] == ticks[failed]);
}

/// Of every run: at most one termination request is sent; one is sent
/// exactly when a started process was not seen to finish by the time the run
/// ended, that is when the run was interrupted or a poll failed; none is
/// sent when an exit status is returned, when the process never started, or
/// while the run has not ended. A run that has not ended has polled at every
/// iteration, and a sleep follows every poll but the one that ends a run.
pub proof fn lemma_termination_follows_outcome(launched: Result<(), OsError>, ticks: Seq<Tick>)
    ensures
        supervise(launched, ticks).terminations <= 1,
        supervise(launched, ticks).terminations == 1 <==> (supervise(launched, ticks).outcome
            matches Some(Err(e)) && !(e is Spawn)),
        supervise(launched, ticks).outcome is None ==> supervise(launched, ticks).polls
            == ticks.len(),
        supervise(launched, ticks).sleeps <= supervise(launched, ticks).polls
            <= supervise(launched, ticks).sleeps + 1,
        supervise(launched, ticks).polls <= ticks.len(),
    decreases ticks.len(),
{
    if launched is Ok && ticks.len() > 0 && ticks[0].quiet() {
        lemma_termination_follows_outcome(launched, ticks.skip(1));
    }
}

/// Observations that come after the run has ended change nothing.
pub proof fn lemma_ended_run_ignores_rest(
    launched: Result<(), OsError>,
    ticks: Seq<Tick>,
    more: Seq<Tick>,
)
    requires
        supervise(launched, ticks).outcome is Some,
    ensures
        supervise(launched, ticks + more) == supervise(launched, ticks),
    decreases ticks.len(),
{
    if launched is Ok {
        let all = ticks + more;
        assert(ticks.len() > 0);
        assert(all[0] == ticks[0]);
        if ticks[0].quiet() {
            assert(all.skip(1) =~= ticks.skip(1) + more);
            lemma_ended_run_ignores_rest(launched, ticks.skip(1), more);
        }
    }
}

} // verus!
