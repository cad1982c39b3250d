//! Supervisor Loop: the restart/backoff policy tying the attempts together.
//!
//! The loop itself — spawning, sleeping, delegating to the monitor — runs
//! outside the library; its every decision is taken here: which command an
//! attempt runs, how the attempt counter advances, and what follows each
//! attempt's result (stop, or retry after which fixed delay).
use vstd::prelude::*;

use crate::cli_config::CliConfig;
use crate::command::CommandType;
use crate::config::Config;
use crate::error::ServerError;
use crate::monitor::AttemptOutcome;

verus! {

/// How one whole attempt ended, as the supervisor sees it.
#[derive(Debug)]
pub enum AttemptResult {
    /// The attempt was monitored to an outcome.
    Finished(AttemptOutcome),
    /// The attempt never got that far: the command source or the spawn
    /// failed with this error.
    Failed(ServerError),
}

/// What the supervisor does after an attempt.
#[derive(Debug, PartialEq, Eq, Structural, Clone, Copy)]
pub enum SupervisorAction {
    /// Supervision is over: the server exited cleanly.
    Stop,
    /// Sleep this many milliseconds, then start the next attempt.
    Retry(u64),
}

/// The supervisor's rule: a restart-worthy outcome retries after the
/// restart delay, a clean exit stops the loop, and a failed attempt
/// (command source or spawn) retries after the error delay. Delays are
/// fixed; the loop has no attempt ceiling.
pub open spec fn supervisor_action_spec(config: Config, result: AttemptResult) -> SupervisorAction {
    match result {
        AttemptResult::Finished(outcome) => if outcome.spec_should_restart() {
            SupervisorAction::Retry(config.restart_delay)
        } else {
            SupervisorAction::Stop
        },
        AttemptResult::Failed(_) => SupervisorAction::Retry(config.error_delay),
    }
}

/// The supervisor: owns the settings and the attempt counter.
pub struct DevServer {
    /// The supervision settings the loop runs under.
    pub config: Config,
    /// The operator's settings, once loaded; absent in test mode.
    pub cli_config: Option<CliConfig>,
    /// Whether attempts run the fixed test command.
    pub test_mode: bool,
    /// Attempts started so far; grows by one before each spawn.
    pub restart_count: u64,
}

impl DevServer {
    /// A supervisor that has started no attempt yet.
    pub fn new(config: Config, test_mode: bool) -> (s: DevServer)
        ensures
            s.config == config,
            s.cli_config is None,
            s.test_mode == test_mode,
            s.restart_count == 0,
    {
        DevServer { config, cli_config: None, test_mode, restart_count: 0 }
    }

    /// Adopts the operator's settings: the watched error pattern is taken
    /// from them; everything else is unchanged.
    pub fn apply_cli_config(&mut self, cli: CliConfig)
        ensures
            final(self).config.error_pattern == cli.error_pattern,
            final(self).config.restart_delay == old(self).config.restart_delay,
            final(self).config.error_delay == old(self).config.error_delay,
            final(self).config.process_check_interval == old(self).config.process_check_interval,
            final(self).config.shutdown_timeout == old(self).config.shutdown_timeout,
            final(self).cli_config == Some(cli),
            final(self).test_mode == old(self).test_mode,
            final(self).restart_count == old(self).restart_count,
    {
        self.config.error_pattern = cli.error_pattern.clone();
        self.cli_config = Some(cli);
    }

    /// Counts the next attempt: the counter grows by one, monotonically,
    /// and the new value numbers the attempt about to be spawned.
    pub fn begin_attempt(&mut self) -> (attempt: u64)
        requires
            old(self).restart_count < u64::MAX,
        ensures
            final(self).restart_count == old(self).restart_count + 1,
            attempt == final(self).restart_count,
            final(self).config == old(self).config,
            final(self).cli_config == old(self).cli_config,
            final(self).test_mode == old(self).test_mode,
    {
        self.restart_count = self.restart_count + 1;
        self.restart_count
    }

    /// The command the next attempt runs: the fixed test command in test
    /// mode, otherwise the operator's configured run command.
    pub fn select_command(&self) -> (t: CommandType)
        requires
            !self.test_mode ==> self.cli_config is Some,
        ensures
            self.test_mode ==> t is Test,
            !self.test_mode ==> t == CommandType::Dev(self.cli_config->0),
    {
        if self.test_mode {
            CommandType::Test
        } else {
            match &self.cli_config {
                Some(c) => CommandType::Dev(
                    CliConfig {
                        run_command: c.run_command.clone(),
                        error_pattern: c.error_pattern.clone(),
                    },
                ),
                None => vstd::pervasive::unreached(),
            }
        }
    }

    /// The supervisor's decision after one attempt.
    pub fn next_action(&self, result: AttemptResult) -> (a: SupervisorAction)
        ensures
            a == supervisor_action_spec(self.config, result),
    {
        match result {
            AttemptResult::Finished(outcome) => if outcome.should_restart() {
                SupervisorAction::Retry(self.config.restart_delay)
            } else {
                SupervisorAction::Stop
            },
            AttemptResult::Failed(_) => SupervisorAction::Retry(self.config.error_delay),
        }
    }
}

} // verus!
