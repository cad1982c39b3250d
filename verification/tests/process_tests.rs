use dev_monitor::process::{
    handle_kill_signal, termination_step, KillSignal, ProcessPoll, TerminationStep,
};

#[test]
fn terminate_already_exited_is_success() {
    // signalling a process that already exited counts as success
    assert!(handle_kill_signal(KillSignal::AlreadyExited).is_ok());
    // and the first status poll, which reports the exit, ends the wait
    assert!(matches!(
        termination_step(ProcessPoll::Exited(0), 0, 5000),
        TerminationStep::Finished(Ok(()))
    ));
    assert!(matches!(
        termination_step(ProcessPoll::Exited(137), 0, 5000),
        TerminationStep::Finished(Ok(()))
    ));
}

#[test]
fn delivered_signal_is_success() {
    assert!(handle_kill_signal(KillSignal::Delivered).is_ok());
}

#[test]
fn failed_signal_is_a_process_management_error() {
    let r = handle_kill_signal(KillSignal::Failed("permission denied".to_string()));
    match r {
        Err(e) => assert_eq!(
            e.message(),
            "Process management error: permission denied"
        ),
        Ok(()) => panic!("a failed signal must be an error"),
    }
}

#[test]
fn failed_poll_is_a_process_management_error() {
    let step = termination_step(ProcessPoll::PollFailed("gone".to_string()), 0, 5000);
    match step {
        TerminationStep::Finished(Err(e)) => {
            assert_eq!(e.message(), "Process management error: gone");
        }
        _ => panic!("a failed poll must end the wait with an error"),
    }
}

#[test]
fn termination_gives_up_at_timeout_with_success() {
    // a shutdown timeout of 200 ms against a process that ignores the
    // signal: the wait sleeps 50 ms at a time and gives up at 200 ms
    // elapsed, reporting success rather than blocking on
    let timeout: u64 = 200;
    let interval: u64 = 50;
    let mut elapsed: u64 = 0;
    let mut sleeps: u32 = 0;
    let result = loop {
        match termination_step(ProcessPoll::StillRunning, elapsed, timeout) {
            TerminationStep::SleepAndRetry => {
                sleeps += 1;
                elapsed += interval;
            }
            TerminationStep::Finished(r) => break r,
        }
    };
    assert!(result.is_ok());
    assert_eq!(elapsed, 200);
    assert_eq!(sleeps, 4);
}

#[test]
fn wait_continues_while_running_within_timeout() {
    assert!(matches!(
        termination_step(ProcessPoll::StillRunning, 0, 200),
        TerminationStep::SleepAndRetry
    ));
    assert!(matches!(
        termination_step(ProcessPoll::StillRunning, 199, 200),
        TerminationStep::SleepAndRetry
    ));
    assert!(matches!(
        termination_step(ProcessPoll::StillRunning, 200, 200),
        TerminationStep::Finished(Ok(()))
    ));
}
