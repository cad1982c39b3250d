//! Supervision engine for a long-running development server process.
//!
//! The library holds the decision logic of the supervisor: scanning output
//! lines for an error pattern, deciding per monitor-loop iteration whether an
//! attempt is over and whether the child process must be terminated, the
//! bounded-wait termination policy, and the restart/backoff policy of the
//! supervisor loop. The surrounding process, thread and file plumbing lives
//! outside the library and drives these decisions step by step.

pub mod cli_config;
pub mod command;
pub mod config;
pub mod error;
pub mod monitor;
pub mod process;
pub mod scan;
pub mod server;
