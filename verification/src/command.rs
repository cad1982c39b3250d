//! Building the command specification for one attempt: the program and
//! arguments handed to the spawner.
//!
//! Both kinds of attempt run through a shell: the test command runs a fixed
//! script that emits a line holding the default error pattern, the dev
//! command runs the operator's configured run command. Turning this
//! specification into an operating-system process (and setting its working
//! directory) happens outside the library.
use vstd::prelude::*;

use crate::cli_config::CliConfig;

verus! {

/// The kind of command one attempt runs.
pub enum CommandType {
    /// The fixed test script that simulates a failing server.
    Test,
    /// The operator's configured run command.
    Dev(CliConfig),
}

/// A ready-to-spawn command: a program and its arguments.
pub struct CommandSpec {
    /// The program to execute.
    pub program: String,
    /// Its arguments, in order.
    pub args: Vec<String>,
}

/// The script the test command hands to the shell: it announces itself,
/// emits an ordinary line, then a line holding `"[Error"`, then one more
/// line that a watching scanner must never report.
pub open spec fn test_command_script() -> Seq<char> {
    "echo 'Test server starting...'; sleep 2; echo 'Server ready'; sleep 3; echo '[Error]: Simulated test error'; sleep 1; echo 'This should not appear'"@
}

/// Builds the command specification for an attempt.
pub struct CommandBuilder;

impl CommandBuilder {
    /// The command an attempt of the given kind spawns: `sh -c` with the
    /// test script, or `sh -c` with the configured run command.
    pub fn build(command_type: CommandType) -> (c: CommandSpec)
        ensures
            c.program@ == "sh"@,
            c.args@.len() == 2,
            c.args@[0]@ == "-c"@,
            command_type is Test ==> c.args@[1]@ == test_command_script(),
            (command_type matches CommandType::Dev(config) ==> c.args@[1]@
                == config.run_command@),
    {
        match command_type {
            CommandType::Test => Self::create_test_command(),
            CommandType::Dev(config) => Self::create_dev_command(config),
        }
    }

    /// The fixed test command.
    fn create_test_command() -> (c: CommandSpec)
        ensures
            c.program@ == "sh"@,
            c.args@.len() == 2,
            c.args@[0]@ == "-c"@,
            c.args@[1]@ == test_command_script(),
    {
        let mut args: Vec<String> = Vec::new();
        args.push("-c".to_owned());
        args.push(
            "echo 'Test server starting...'; sleep 2; echo 'Server ready'; sleep 3; echo '[Error]: Simulated test error'; sleep 1; echo 'This should not appear'".to_owned(),
        );
        CommandSpec { program: "sh".to_owned(), args }
    }

    /// The shell invocation of the configured run command.
    fn create_dev_command(config: CliConfig) -> (c: CommandSpec)
        ensures
            c.program@ == "sh"@,
            c.args@.len() == 2,
            c.args@[0]@ == "-c"@,
            c.args@[1]@ == config.run_command@,
    {
        let mut args: Vec<String> = Vec::new();
        args.push("-c".to_owned());
        args.push(config.run_command);
        CommandSpec { program: "sh".to_owned(), args }
    }
}

} // verus!
