//! Termination policy of the Child Process Handle: what the
//! terminate-with-timeout operation decides at each step.
//!
//! After the termination signal is sent, the process status is polled at a
//! fixed short interval until it reports exited or the caller's timeout
//! elapses. On timeout the wait gives up and reports success anyway: the
//! caller cannot tell a stuck process from one whose exit notification is
//! merely delayed, and blocking forever would deadlock the supervisor. This
//! lenient path can under-report a process that is in fact still alive; it
//! is kept deliberately.
use vstd::prelude::*;

use crate::error::ServerError;

verus! {

/// How delivering the termination signal went.
#[derive(Debug)]
pub enum KillSignal {
    /// The signal was delivered to the running process.
    Delivered,
    /// Delivery failed because the process had already exited.
    AlreadyExited,
    /// Delivery failed for another reason.
    Failed(String),
}

/// One non-blocking status poll of the child process.
#[derive(Debug)]
pub enum ProcessPoll {
    /// The process has exited with this code.
    Exited(i32),
    /// The process is still running.
    StillRunning,
    /// Polling itself failed, with the reason.
    PollFailed(String),
}

/// What the termination wait does after one status poll.
#[derive(Debug)]
pub enum TerminationStep {
    /// The wait is over, with this result.
    Finished(Result<(), ServerError>),
    /// Still running and within the timeout: sleep one interval and retry.
    SleepAndRetry,
}

/// The result of the signal-delivery stage: only a failure for a reason
/// other than "already exited" is an error; a signal that found the
/// process already gone counts as success.
pub open spec fn signal_step_spec(sig: KillSignal) -> Result<(), ServerError> {
    match sig {
        KillSignal::Failed(m) => Err(ServerError::ProcessManagement(m)),
        KillSignal::Delivered => Ok(()),
        KillSignal::AlreadyExited => Ok(()),
    }
}

/// Decides whether the termination signal's delivery aborts the wait.
pub fn handle_kill_signal(sig: KillSignal) -> (r: Result<(), ServerError>)
    ensures
        r == signal_step_spec(sig),
{
    match sig {
        KillSignal::Failed(m) => Err(ServerError::ProcessManagement(m)),
        KillSignal::Delivered => Ok(()),
        KillSignal::AlreadyExited => Ok(()),
    }
}

/// The decision rule of the wait loop: an observed exit ends the wait with
/// success; a poll failure ends it with a process-management error; a
/// running process ends it with success once the timeout has elapsed, and
/// otherwise asks for one more sleep and poll.
pub open spec fn termination_step_spec(poll: ProcessPoll, elapsed_ms: u64, timeout_ms: u64) -> TerminationStep {
    match poll {
        ProcessPoll::Exited(_) => TerminationStep::Finished(Ok(())),
        ProcessPoll::PollFailed(m) => TerminationStep::Finished(
            Err(ServerError::ProcessManagement(m)),
        ),
        ProcessPoll::StillRunning => if elapsed_ms >= timeout_ms {
            TerminationStep::Finished(Ok(()))
        } else {
            TerminationStep::SleepAndRetry
        },
    }
}

/// One iteration of the termination wait, `elapsed_ms` after signalling.
pub fn termination_step(poll: ProcessPoll, elapsed_ms: u64, timeout_ms: u64) -> (step:
    TerminationStep)
    ensures
        step == termination_step_spec(poll, elapsed_ms, timeout_ms),
{
    match poll {
        ProcessPoll::Exited(_) => TerminationStep::Finished(Ok(())),
        ProcessPoll::PollFailed(m) => TerminationStep::Finished(
            Err(ServerError::ProcessManagement(m)),
        ),
        ProcessPoll::StillRunning => if elapsed_ms >= timeout_ms {
            TerminationStep::Finished(Ok(()))
        } else {
            TerminationStep::SleepAndRetry
        },
    }
}

/// The result of the whole wait over a run of status polls, the poll at
/// position `k` seen `k * interval_ms` after signalling: the result of the
/// first poll that ends the wait, or success if the observations run out
/// (the wait never outlives its run of polls by more than the timeout).
pub open spec fn termination_wait_result(
    polls: Seq<ProcessPoll>,
    k: int,
    timeout_ms: u64,
    interval_ms: u64,
) -> Result<(), ServerError>
    decreases polls.len() - k,
{
    if !(0 <= k < polls.len()) {
        Ok(())
    } else {
        match polls[k] {
            ProcessPoll::Exited(_) => Ok(()),
            ProcessPoll::PollFailed(m) => Err(ServerError::ProcessManagement(m)),
            ProcessPoll::StillRunning => if k * interval_ms >= timeout_ms {
                Ok(())
            } else {
                termination_wait_result(polls, k + 1, timeout_ms, interval_ms)
            },
        }
    }
}

/// Terminating an already-exited process is idempotent: the rejected signal
/// counts as success, and the first status poll, which reports the exit,
/// ends the wait with success rather than a process-management error.
pub proof fn lemma_terminate_already_exited(
    polls: Seq<ProcessPoll>,
    timeout_ms: u64,
    interval_ms: u64,
    code: i32,
)
    requires
        polls.len() > 0,
        polls[0] == ProcessPoll::Exited(code),
    ensures
        signal_step_spec(KillSignal::AlreadyExited) == Ok::<(), ServerError>(()),
        termination_wait_result(polls, 0, timeout_ms, interval_ms) == Ok::<(), ServerError>(()),
{
}

/// The wait is bounded and lenient: a process that ignores the termination
/// signal for the whole run of polls never blocks the supervisor — the wait
/// ends with success once the timeout elapses (or the observations end).
pub proof fn lemma_ignored_signal_gives_up(
    polls: Seq<ProcessPoll>,
    k: int,
    timeout_ms: u64,
    interval_ms: u64,
)
    requires
        0 <= k,
        forall|j: int| k <= j < polls.len() ==> #[trigger] polls[j] is StillRunning,
    ensures
        termination_wait_result(polls, k, timeout_ms, interval_ms) == Ok::<(), ServerError>(()),
    decreases polls.len() - k,
{
    if 0 <= k < polls.len() && k * interval_ms < timeout_ms {
        lemma_ignored_signal_gives_up(polls, k + 1, timeout_ms, interval_ms);
    }
}

} // verus!
