use dev_monitor::cli_config::CliConfig;
use dev_monitor::command::{CommandBuilder, CommandType};
use dev_monitor::config::Config;
use dev_monitor::error::ServerError;
use dev_monitor::monitor::{AttemptOutcome, RestartReason};
use dev_monitor::server::{AttemptResult, DevServer, SupervisorAction};

#[test]
fn test_placeholder() {
    // Placeholder: integration tests can be added here
    assert!(true);
}

#[test]
fn restart_worthy_outcome_sleeps_restart_delay() {
    // after a restart-worthy attempt the loop sleeps exactly the restart
    // delay before asking for the next command
    let config = Config::new().with_restart_delay(250);
    let server = DevServer::new(config, true);
    let action = server.next_action(AttemptResult::Finished(AttemptOutcome::RestartNeeded(
        RestartReason::ErrorPatternFound,
    )));
    assert_eq!(action, SupervisorAction::Retry(250));
}

#[test]
fn clean_exit_stops_the_loop() {
    let server = DevServer::new(Config::new(), true);
    let action = server.next_action(AttemptResult::Finished(AttemptOutcome::CleanExit));
    assert_eq!(action, SupervisorAction::Stop);
}

#[test]
fn command_source_fails_twice_then_succeeds() {
    // two failed attempts sleep the error delay each; the third attempt
    // proceeds normally with the counter at 3
    let config = Config::new();
    let error_delay = config.error_delay;
    let mut server = DevServer::new(config, true);
    let mut sleeps: Vec<u64> = Vec::new();

    for _ in 0..2 {
        server.begin_attempt();
        let action = server.next_action(AttemptResult::Failed(ServerError::ProcessStart(
            "configuration unreadable".to_string(),
        )));
        match action {
            SupervisorAction::Retry(delay) => sleeps.push(delay),
            SupervisorAction::Stop => panic!("a failed attempt must retry"),
        }
    }
    assert_eq!(sleeps, vec![error_delay, error_delay]);

    let attempt = server.begin_attempt();
    assert_eq!(attempt, 3);
    let action = server.next_action(AttemptResult::Finished(AttemptOutcome::CleanExit));
    assert_eq!(action, SupervisorAction::Stop);
}

#[test]
fn attempt_counter_counts_up_from_one() {
    let mut server = DevServer::new(Config::new(), true);
    assert_eq!(server.restart_count, 0);
    assert_eq!(server.begin_attempt(), 1);
    assert_eq!(server.begin_attempt(), 2);
    assert_eq!(server.restart_count, 2);
}

#[test]
fn test_mode_selects_the_test_command() {
    let server = DevServer::new(Config::new(), true);
    assert!(matches!(server.select_command(), CommandType::Test));
}

#[test]
fn dev_mode_selects_the_configured_command() {
    let mut server = DevServer::new(Config::new(), false);
    server.apply_cli_config(CliConfig {
        run_command: "npm run dev".to_string(),
        error_pattern: "ERROR:".to_string(),
    });
    assert_eq!(server.config.error_pattern, "ERROR:");
    match server.select_command() {
        CommandType::Dev(cli) => assert_eq!(cli.run_command, "npm run dev"),
        CommandType::Test => panic!("dev mode must run the configured command"),
    }
}

#[test]
fn built_dev_command_runs_through_the_shell() {
    let cli = CliConfig {
        run_command: "npm run dev".to_string(),
        error_pattern: "[Error".to_string(),
    };
    let command = CommandBuilder::build(CommandType::Dev(cli));
    assert_eq!(command.program, "sh");
    assert_eq!(command.args, vec!["-c", "npm run dev"]);
}

#[test]
fn built_test_command_simulates_an_error() {
    let command = CommandBuilder::build(CommandType::Test);
    assert_eq!(command.program, "sh");
    assert_eq!(command.args.len(), 2);
    assert_eq!(command.args[0], "-c");
    assert!(command.args[1].contains("[Error]: Simulated test error"));
    assert!(command.args[1].contains("Server ready"));
}

#[test]
fn error_messages_name_their_kind() {
    assert_eq!(
        ServerError::ProcessStart("no such file".to_string()).message(),
        "Failed to start process: no such file"
    );
    assert_eq!(
        ServerError::IoError("stream closed".to_string()).message(),
        "IO error: stream closed"
    );
    assert_eq!(
        ServerError::ChannelError("receiver gone".to_string()).message(),
        "Channel communication error: receiver gone"
    );
    assert_eq!(
        ServerError::ProcessManagement("not permitted".to_string()).message(),
        "Process management error: not permitted"
    );
}
