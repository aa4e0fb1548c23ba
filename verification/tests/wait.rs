use guarded_process::error::{FailureKind, OsError, WaitError};
use guarded_process::status::ExitStatus;
use guarded_process::wait::{step, Action, Event, WaitState, POLL_INTERVAL_MILLIS};

fn failure() -> OsError {
    OsError { kind: FailureKind::Other, raw: Some(10) }
}

#[test]
fn poll_interval_is_400_milliseconds() {
    assert_eq!(POLL_INTERVAL_MILLIS, 400);
}

#[test]
fn set_flag_leads_to_a_poll() {
    assert_eq!(step(WaitState::Running, Event::Flag(true)), (WaitState::Running, Action::Poll));
}

#[test]
fn cleared_flag_interrupts() {
    assert_eq!(
        step(WaitState::Running, Event::Flag(false)),
        (WaitState::Interrupted, Action::Stop)
    );
}

#[test]
fn running_process_leads_to_one_interval_of_sleep() {
    assert_eq!(
        step(WaitState::Running, Event::Polled(Ok(None))),
        (WaitState::Running, Action::Sleep(400))
    );
}

#[test]
fn exit_status_finishes_the_wait() {
    assert_eq!(
        step(WaitState::Running, Event::Polled(Ok(Some(ExitStatus::Exited(17))))),
        (WaitState::Finished(ExitStatus::Exited(17)), Action::Stop)
    );
    assert_eq!(
        step(WaitState::Running, Event::Polled(Ok(Some(ExitStatus::Signaled)))),
        (WaitState::Finished(ExitStatus::Signaled), Action::Stop)
    );
}

#[test]
fn failed_poll_is_fatal() {
    assert_eq!(
        step(WaitState::Running, Event::Polled(Err(failure()))),
        (WaitState::Failed(failure()), Action::Stop)
    );
}

#[test]
fn ended_wait_stays_as_it_is() {
    let ended = [
        WaitState::Finished(ExitStatus::Exited(0)),
        WaitState::Interrupted,
        WaitState::Failed(failure()),
    ];
    let events = [
        Event::Flag(true),
        Event::Flag(false),
        Event::Polled(Ok(None)),
        Event::Polled(Ok(Some(ExitStatus::Exited(1)))),
        Event::Polled(Err(failure())),
    ];
    for state in ended {
        for event in events {
            assert_eq!(step(state, event), (state, Action::Stop));
        }
    }
}

#[test]
fn outcome_of_each_state() {
    assert_eq!(WaitState::Running.outcome(), None);
    assert_eq!(
        WaitState::Finished(ExitStatus::Exited(17)).outcome(),
        Some(Ok(ExitStatus::Exited(17)))
    );
    assert_eq!(WaitState::Interrupted.outcome(), Some(Err(WaitError::Interrupted)));
    assert_eq!(WaitState::Failed(failure()).outcome(), Some(Err(WaitError::Poll(failure()))));
}

#[test]
fn only_running_is_running() {
    assert!(WaitState::Running.is_running());
    assert!(!WaitState::Finished(ExitStatus::Exited(0)).is_running());
    assert!(!WaitState::Interrupted.is_running());
    assert!(!WaitState::Failed(failure()).is_running());
}
