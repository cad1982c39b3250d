//! Monitor: decides, per attempt, whether the child process's run warrants
//! a restart.
//!
//! Two scanners (one per output stream) report onto one channel; the
//! monitor's loop consumes a signal, or — when the channel stays quiet for
//! one poll interval — polls the process status, and decides. The first
//! deciding observation is authoritative: no later observation can re-open
//! the decision.
use vstd::prelude::*;

use crate::config::Config;
use crate::error::ServerError;
use crate::scan::{contains_pattern, lemma_match_is_reported, scan_events, scanner_detects,
    ScanEvent, ScanEventView};

verus! {

/// A signal sent by a scanner thread to the monitor loop.
#[derive(Debug)]
pub enum WatchMessage {
    /// A line holding the error pattern was seen.
    ErrorDetected,
    /// Reading a stream failed, with the reason.
    IoError(String),
}

/// Why an attempt ended restart-worthy.
#[derive(Debug, PartialEq, Eq, Structural, Clone, Copy)]
pub enum RestartReason {
    /// The error pattern appeared in the output.
    ErrorPatternFound,
    /// The process exited with a non-success status.
    NonZeroExit,
    /// An output stream failed or the channel broke.
    StreamFailure,
}

/// How one attempt of the child process ended.
#[derive(Debug, PartialEq, Eq, Structural, Clone, Copy)]
pub enum AttemptOutcome {
    /// The attempt must be retried after the restart delay.
    RestartNeeded(RestartReason),
    /// The process finished cleanly; supervision ends.
    CleanExit,
}

impl AttemptOutcome {
    /// Whether this outcome asks the supervisor for a restart.
    pub open spec fn spec_should_restart(self) -> bool {
        self is RestartNeeded
    }

    /// Whether this outcome asks the supervisor for a restart.
    pub fn should_restart(&self) -> (b: bool)
        ensures
            b == self.spec_should_restart(),
    {
        match self {
            AttemptOutcome::RestartNeeded(_) => true,
            AttemptOutcome::CleanExit => false,
        }
    }
}

/// What one iteration of the monitor loop observed.
#[derive(Debug)]
pub enum MonitorEvent {
    /// A scanner signalled over the channel.
    Signal(WatchMessage),
    /// The channel stayed quiet for one poll interval; the process status
    /// was then polled: `Some(code)` if it has exited, `None` if it is
    /// still running.
    QuietPoll(Option<i32>),
    /// The channel stayed quiet and the status poll itself failed.
    QuietPollFailed(String),
    /// Both scanners are done and no further signal can ever arrive.
    Disconnected,
}

/// What the monitor loop does after one observation.
#[derive(Debug)]
pub enum MonitorStep {
    /// Nothing decided: poll again.
    KeepWaiting,
    /// The attempt is decided. The flag says whether the child process is
    /// terminated (with the bounded wait) before the outcome is returned.
    Decided(AttemptOutcome, bool),
    /// Status polling failed: the attempt is abandoned with this error.
    Fail(ServerError),
}

/// The monitor's decision rule for a single observation: a scanner signal
/// decides a restart with the child terminated first; an observed exit
/// decides by the exit code; a quiet poll of a running process decides
/// nothing; a disconnected channel decides a clean exit.
pub open spec fn monitor_step_spec(ev: MonitorEvent) -> MonitorStep {
    match ev {
        MonitorEvent::Signal(WatchMessage::ErrorDetected) => MonitorStep::Decided(
            AttemptOutcome::RestartNeeded(RestartReason::ErrorPatternFound),
            true,
        ),
        MonitorEvent::Signal(WatchMessage::IoError(_)) => MonitorStep::Decided(
            AttemptOutcome::RestartNeeded(RestartReason::StreamFailure),
            true,
        ),
        MonitorEvent::QuietPoll(Some(code)) => if code == 0 {
            MonitorStep::Decided(AttemptOutcome::CleanExit, false)
        } else {
            MonitorStep::Decided(AttemptOutcome::RestartNeeded(RestartReason::NonZeroExit), false)
        },
        MonitorEvent::QuietPoll(None) => MonitorStep::KeepWaiting,
        MonitorEvent::QuietPollFailed(m) => MonitorStep::Fail(ServerError::IoError(m)),
        MonitorEvent::Disconnected => MonitorStep::Decided(AttemptOutcome::CleanExit, false),
    }
}

/// Watches one child process attempt for the configured error pattern.
pub struct ProcessMonitor {
    /// The supervision settings this monitor decides under.
    pub config: Config,
}

impl ProcessMonitor {
    /// A monitor deciding under the given settings.
    pub fn new(config: Config) -> (m: ProcessMonitor)
        ensures
            m.config == config,
    {
        ProcessMonitor { config }
    }

    /// One iteration of the monitor's decision loop.
    pub fn wait_step(&self, ev: MonitorEvent) -> (step: MonitorStep)
        ensures
            step == monitor_step_spec(ev),
    {
        match ev {
            MonitorEvent::Signal(WatchMessage::ErrorDetected) => MonitorStep::Decided(
                AttemptOutcome::RestartNeeded(RestartReason::ErrorPatternFound),
                true,
            ),
            MonitorEvent::Signal(WatchMessage::IoError(_)) => MonitorStep::Decided(
                AttemptOutcome::RestartNeeded(RestartReason::StreamFailure),
                true,
            ),
            MonitorEvent::QuietPoll(Some(code)) => if code == 0 {
                MonitorStep::Decided(AttemptOutcome::CleanExit, false)
            } else {
                MonitorStep::Decided(
                    AttemptOutcome::RestartNeeded(RestartReason::NonZeroExit),
                    false,
                )
            },
            MonitorEvent::QuietPoll(None) => MonitorStep::KeepWaiting,
            MonitorEvent::QuietPollFailed(m) => MonitorStep::Fail(ServerError::IoError(m)),
            MonitorEvent::Disconnected => MonitorStep::Decided(AttemptOutcome::CleanExit, false),
        }
    }
}

/// The signal, if any, a scanner sends over the channel for one of its
/// reports: a match is signalled as `ErrorDetected`, a read failure as
/// `IoError`; a plain observation sends nothing.
pub fn signal_for_event(ev: &ScanEvent) -> (sig: Option<WatchMessage>)
    ensures
        ev@ is ErrorMatched ==> sig == Some(WatchMessage::ErrorDetected),
        ev@ is LineObserved ==> sig is None,
        (ev@ matches ScanEventView::StreamError(m) ==> sig matches Some(
            WatchMessage::IoError(r),
        ) && r@ == m),
{
    match ev {
        ScanEvent::ErrorMatched(_) => Some(WatchMessage::ErrorDetected),
        ScanEvent::LineObserved(_) => None,
        ScanEvent::StreamError(m) => Some(WatchMessage::IoError(m.clone())),
    }
}

/// The decision the monitor loop reaches over a whole run of observations:
/// that of the first observation whose step decides, `None` if none does.
pub open spec fn monitor_decision(evs: Seq<MonitorEvent>) -> Option<MonitorStep>
    decreases evs.len(),
{
    if evs.len() == 0 {
        None
    } else if monitor_step_spec(evs[0]) is KeepWaiting {
        monitor_decision(evs.drop_first())
    } else {
        Some(monitor_step_spec(evs[0]))
    }
}

/// The first deciding observation is authoritative: whatever follows it in
/// the run, the loop's decision is the step of that observation.
pub proof fn lemma_first_decision_is_final(evs: Seq<MonitorEvent>, i: int)
    requires
        0 <= i < evs.len(),
        forall|j: int| 0 <= j < i ==> monitor_step_spec(#[trigger] evs[j]) is KeepWaiting,
        !(monitor_step_spec(evs[i]) is KeepWaiting),
    ensures
        monitor_decision(evs) == Some(monitor_step_spec(evs[i])),
    decreases i,
{
    if i > 0 {
        assert(forall|k: int|
            0 <= k < evs.drop_first().len() ==> evs.drop_first()[k] == #[trigger] evs[k + 1]);
        lemma_first_decision_is_final(evs.drop_first(), i - 1);
    }
}

/// A stream holding the error pattern forces a restart: the scanner reports
/// the match, and the monitor run whose first deciding observation is that
/// signal decides `RestartNeeded(ErrorPatternFound)` — with the child
/// process terminated (the decision's flag) before the outcome is returned.
pub proof fn lemma_error_pattern_forces_restart(
    lines: Seq<Seq<char>>,
    pat: Seq<char>,
    evs: Seq<MonitorEvent>,
    i: int,
)
    requires
        scanner_detects(lines, pat),
        0 <= i < evs.len(),
        evs[i] == MonitorEvent::Signal(WatchMessage::ErrorDetected),
        forall|j: int| 0 <= j < i ==> monitor_step_spec(#[trigger] evs[j]) is KeepWaiting,
    ensures
        scan_events(lines, pat).len() > 0,
        scan_events(lines, pat).last() is ErrorMatched,
        monitor_decision(evs) == Some(
            MonitorStep::Decided(
                AttemptOutcome::RestartNeeded(RestartReason::ErrorPatternFound),
                true,
            ),
        ),
{
    lemma_match_is_reported(lines, pat);
    lemma_first_decision_is_final(evs, i);
}

/// A stream without the pattern, from a process that exits with status 0,
/// ends the attempt in `CleanExit`: the scanners never signal, and the
/// monitor run whose first deciding observation is the polled exit decides
/// a clean exit, with no termination.
pub proof fn lemma_clean_run_clean_exit(
    lines: Seq<Seq<char>>,
    pat: Seq<char>,
    evs: Seq<MonitorEvent>,
    i: int,
)
    requires
        forall|k: int| 0 <= k < lines.len() ==> !contains_pattern(
            #[trigger] lines[k],
            pat,
        ),
        0 <= i < evs.len(),
        evs[i] == MonitorEvent::QuietPoll(Some(0i32)),
        forall|j: int| 0 <= j < i ==> monitor_step_spec(#[trigger] evs[j]) is KeepWaiting,
    ensures
        !scanner_detects(lines, pat),
        monitor_decision(evs) == Some(MonitorStep::Decided(AttemptOutcome::CleanExit, false)),
{
    lemma_first_decision_is_final(evs, i);
}

/// A stream without the pattern, from a process that exits with a non-zero
/// status, still forces a restart: the monitor run whose first deciding
/// observation is the polled exit decides `RestartNeeded(NonZeroExit)`.
pub proof fn lemma_nonzero_exit_forces_restart(
    lines: Seq<Seq<char>>,
    pat: Seq<char>,
    evs: Seq<MonitorEvent>,
    i: int,
    code: i32,
)
    requires
        forall|k: int| 0 <= k < lines.len() ==> !contains_pattern(
            #[trigger] lines[k],
            pat,
        ),
        0 <= i < evs.len(),
        evs[i] == MonitorEvent::QuietPoll(Some(code)),
        code != 0,
        forall|j: int| 0 <= j < i ==> monitor_step_spec(#[trigger] evs[j]) is KeepWaiting,
    ensures
        !scanner_detects(lines, pat),
        monitor_decision(evs) == Some(
            MonitorStep::Decided(AttemptOutcome::RestartNeeded(RestartReason::NonZeroExit), false),
        ),
{
    lemma_first_decision_is_final(evs, i);
}

} // verus!
