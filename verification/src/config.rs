//! Supervision settings: the delays of the restart loop and the error
//! pattern watched for in the child's output.
//!
//! All durations are held as whole milliseconds, so that the contracts can
//! speak of them as plain integers.
use vstd::prelude::*;

verus! {

/// Milliseconds waited after a restart-worthy attempt before the next spawn.
pub const DEFAULT_RESTART_DELAY_MS: u64 = 2000;

/// Milliseconds waited after a failed spawn before the next try.
pub const DEFAULT_ERROR_DELAY_MS: u64 = 5000;

/// Poll interval of the monitor's decision loop, in milliseconds.
pub const DEFAULT_PROCESS_CHECK_INTERVAL_MS: u64 = 100;

/// Upper bound on the wait for a signalled process to exit, in milliseconds.
pub const DEFAULT_SHUTDOWN_TIMEOUT_MS: u64 = 5000;

/// Configuration of one supervisor loop.
///
/// Immutable while an attempt runs; the error pattern is matched
/// case-sensitively as a substring of each output line.
#[derive(Debug, Clone)]
pub struct Config {
    /// Delay before respawning after a restart-worthy outcome, in ms.
    pub restart_delay: u64,
    /// Delay before retrying after a spawn failure, in ms.
    pub error_delay: u64,
    /// Poll interval of the monitor loop, in ms.
    pub process_check_interval: u64,
    /// Bound on the wait for termination, in ms.
    pub shutdown_timeout: u64,
    /// Substring whose appearance in an output line forces a restart.
    pub error_pattern: String,
}

impl Config {
    /// True of a configuration holding the default values.
    pub open spec fn is_default(self) -> bool {
        &&& self.restart_delay == DEFAULT_RESTART_DELAY_MS
        &&& self.error_delay == DEFAULT_ERROR_DELAY_MS
        &&& self.process_check_interval == DEFAULT_PROCESS_CHECK_INTERVAL_MS
        &&& self.shutdown_timeout == DEFAULT_SHUTDOWN_TIMEOUT_MS
        &&& self.error_pattern@ == "[Error"@
    }

    /// A configuration with the default delays and error pattern.
    pub fn new() -> (c: Config)
        ensures
            c.is_default(),
    {
        Config::default()
    }

    /// The same configuration with the error pattern replaced.
    pub fn with_error_pattern(self, pattern: &str) -> (c: Config)
        ensures
            c.error_pattern@ == pattern@,
            c.restart_delay == self.restart_delay,
            c.error_delay == self.error_delay,
            c.process_check_interval == self.process_check_interval,
            c.shutdown_timeout == self.shutdown_timeout,
    {
        Config {
            error_pattern: pattern.to_owned(),
            ..self
        }
    }

    /// The same configuration with the restart delay replaced.
    pub fn with_restart_delay(self, delay_ms: u64) -> (c: Config)
        ensures
            c.restart_delay == delay_ms,
            c.error_delay == self.error_delay,
            c.process_check_interval == self.process_check_interval,
            c.shutdown_timeout == self.shutdown_timeout,
            c.error_pattern == self.error_pattern,
    {
        Config {
            restart_delay: delay_ms,
            ..self
        }
    }

    /// The same configuration with the error (spawn-failure) delay replaced.
    pub fn with_error_delay(self, delay_ms: u64) -> (c: Config)
        ensures
            c.error_delay == delay_ms,
            c.restart_delay == self.restart_delay,
            c.process_check_interval == self.process_check_interval,
            c.shutdown_timeout == self.shutdown_timeout,
            c.error_pattern == self.error_pattern,
    {
        Config {
            error_delay: delay_ms,
            ..self
        }
    }
}

impl Default for Config {
    /// The default supervision settings: 2 s restart delay, 5 s error delay,
    /// 100 ms poll interval, 5 s shutdown timeout, pattern `"[Error"`.
    fn default() -> (c: Config)
        ensures
            c.is_default(),
    {
        Config {
            restart_delay: DEFAULT_RESTART_DELAY_MS,
            error_delay: DEFAULT_ERROR_DELAY_MS,
            process_check_interval: DEFAULT_PROCESS_CHECK_INTERVAL_MS,
            shutdown_timeout: DEFAULT_SHUTDOWN_TIMEOUT_MS,
            error_pattern: "[Error".to_owned(),
        }
    }
}

} // verus!
