//! Error kinds of the supervision engine.
//!
//! Every per-attempt failure is absorbed by the supervisor loop and turned
//! into a delayed retry; only configuration loading before the loop starts
//! is fatal to the program.
use vstd::prelude::*;

verus! {

/// A failure observed while supervising one attempt.
#[derive(Debug, Clone, PartialEq, Eq)]
pub enum ServerError {
    /// The operating system refused to spawn the child process.
    ProcessStart(String),
    /// Reading an output stream (or the configuration) failed.
    IoError(String),
    /// The internal event channel failed.
    ChannelError(String),
    /// Signalling or waiting on the child process failed.
    ProcessManagement(String),
}

/// The text of an error's description: a fixed heading for its kind,
/// followed by the message carried with it.
pub open spec fn message_spec(e: ServerError) -> Seq<char> {
    match e {
        ServerError::ProcessStart(m) => "Failed to start process: "@ + m@,
        ServerError::IoError(m) => "IO error: "@ + m@,
        ServerError::ChannelError(m) => "Channel communication error: "@ + m@,
        ServerError::ProcessManagement(m) => "Process management error: "@ + m@,
    }
}

impl ServerError {
    /// A human-readable description of the error, heading plus message.
    pub fn message(&self) -> (m: String)
        ensures
            m@ == message_spec(*self),
    {
        match self {
            ServerError::ProcessStart(s) => {
                "Failed to start process: ".to_owned().concat(s.as_str())
            },
            ServerError::IoError(s) => "IO error: ".to_owned().concat(s.as_str()),
            ServerError::ChannelError(s) => {
                "Channel communication error: ".to_owned().concat(s.as_str())
            },
            ServerError::ProcessManagement(s) => {
                "Process management error: ".to_owned().concat(s.as_str())
            },
        }
    }
}

} // verus!
