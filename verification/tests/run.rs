use guarded_process::error::{FailureKind, OsError, WaitError};
use guarded_process::run::{simulate, Report, Tick};
use guarded_process::status::ExitStatus;
use guarded_process::wait::POLL_INTERVAL_MILLIS;

fn quiet() -> Tick {
    Tick { running: true, polled: Ok(None) }
}

fn exits(code: i32) -> Tick {
    Tick { running: true, polled: Ok(Some(ExitStatus::Exited(code))) }
}

fn cancelled() -> Tick {
    Tick { running: false, polled: Ok(None) }
}

fn script(quiet_ticks: usize, last: Tick) -> Vec<Tick> {
    let mut ticks = vec![quiet(); quiet_ticks];
    ticks.push(last);
    ticks
}

#[test]
fn five_second_process_returns_success_untouched() {
    // A process that runs five seconds is still running at the polls made
    // at 0 ms, 400 ms, ... 4800 ms and has exited at the poll at 5200 ms.
    let report = simulate(Ok(()), &script(13, exits(0)));
    assert_eq!(
        report,
        Report { outcome: Some(Ok(ExitStatus::Exited(0))), polls: 14, sleeps: 13, terminations: 0 }
    );
    match report.outcome {
        Some(Ok(status)) => assert!(status.success()),
        _ => panic!("the run must return the exit status"),
    }
    assert_eq!(report.sleeps as u64 * POLL_INTERVAL_MILLIS, 5200);
}

#[test]
fn cancel_after_one_second_interrupts_and_terminates() {
    // The flag is cleared at 1000 ms: the readings at 0, 400 and 800 ms say
    // run, the reading at 1200 ms says stop.
    let report = simulate(Ok(()), &script(3, cancelled()));
    assert_eq!(
        report,
        Report { outcome: Some(Err(WaitError::Interrupted)), polls: 3, sleeps: 3, terminations: 1 }
    );
    let noticed_at = report.sleeps as u64 * POLL_INTERVAL_MILLIS;
    assert!(noticed_at >= 1000 && noticed_at - 1000 <= 400);
}

#[test]
fn missing_executable_never_enters_the_loop() {
    let missing = OsError { kind: FailureKind::NotFound, raw: Some(2) };
    let report = simulate(Err(missing), &script(5, exits(0)));
    assert_eq!(
        report,
        Report { outcome: Some(Err(WaitError::Spawn(missing))), polls: 0, sleeps: 0, terminations: 0 }
    );
    let report = simulate(Err(missing), &Vec::new());
    assert_eq!(report.outcome, Some(Err(WaitError::Spawn(missing))));
}

#[test]
fn exit_code_17_is_carried_unmodified() {
    let report = simulate(Ok(()), &script(0, exits(17)));
    assert_eq!(
        report,
        Report { outcome: Some(Ok(ExitStatus::Exited(17))), polls: 1, sleeps: 0, terminations: 0 }
    );
    match report.outcome {
        Some(Ok(status)) => {
            assert_eq!(status.code(), Some(17));
            assert_eq!(status.exit_code(), 17);
            assert!(!status.success());
        },
        _ => panic!("the run must return the exit status"),
    }
}

#[test]
fn signalled_process_is_reported_without_a_code() {
    let killed = Tick { running: true, polled: Ok(Some(ExitStatus::Signaled)) };
    let report = simulate(Ok(()), &script(2, killed));
    assert_eq!(
        report,
        Report { outcome: Some(Ok(ExitStatus::Signaled)), polls: 3, sleeps: 2, terminations: 0 }
    );
}

#[test]
fn failed_poll_ends_the_run_and_terminates() {
    let failure = OsError { kind: FailureKind::Other, raw: Some(10) };
    let broken = Tick { running: true, polled: Err(failure) };
    let report = simulate(Ok(()), &script(4, broken));
    assert_eq!(
        report,
        Report { outcome: Some(Err(WaitError::Poll(failure))), polls: 5, sleeps: 4, terminations: 1 }
    );
}

#[test]
fn cancellation_wins_over_an_exit_in_the_same_iteration() {
    let both = Tick { running: false, polled: Ok(Some(ExitStatus::Exited(0))) };
    let report = simulate(Ok(()), &script(1, both));
    assert_eq!(
        report,
        Report { outcome: Some(Err(WaitError::Interrupted)), polls: 1, sleeps: 1, terminations: 1 }
    );
}

#[test]
fn cancellation_before_the_first_poll() {
    let report = simulate(Ok(()), &script(0, cancelled()));
    assert_eq!(
        report,
        Report { outcome: Some(Err(WaitError::Interrupted)), polls: 0, sleeps: 0, terminations: 1 }
    );
}

#[test]
fn script_that_runs_out_leaves_the_run_open() {
    let report = simulate(Ok(()), &vec![quiet(); 6]);
    assert_eq!(report, Report { outcome: None, polls: 6, sleeps: 6, terminations: 0 });
    let report = simulate(Ok(()), &Vec::new());
    assert_eq!(report, Report { outcome: None, polls: 0, sleeps: 0, terminations: 0 });
}

#[test]
fn observations_after_the_end_change_nothing() {
    let mut ticks = script(2, exits(3));
    let short = simulate(Ok(()), &ticks);
    ticks.push(cancelled());
    ticks.push(exits(0));
    ticks.push(quiet());
    assert_eq!(simulate(Ok(()), &ticks), short);
    assert_eq!(short.outcome, Some(Ok(ExitStatus::Exited(3))));
}

#[test]
fn termination_is_sent_exactly_for_unfinished_processes() {
    let failure = OsError { kind: FailureKind::PermissionDenied, raw: None };
    let endings = [
        exits(0),
        exits(1),
        cancelled(),
        Tick { running: true, polled: Err(failure) },
        Tick { running: true, polled: Ok(Some(ExitStatus::Signaled)) },
        Tick { running: false, polled: Err(failure) },
    ];
    for quiet_ticks in 0..4 {
        for last in endings {
            let report = simulate(Ok(()), &script(quiet_ticks, last));
            let expected = match report.outcome {
                Some(Ok(_)) => 0,
                Some(Err(WaitError::Spawn(_))) => panic!("the process was started"),
                Some(Err(_)) => 1,
                None => panic!("the script ends the run"),
            };
            assert_eq!(report.terminations, expected);
            assert_eq!(report.sleeps, quiet_ticks);
        }
    }
}
