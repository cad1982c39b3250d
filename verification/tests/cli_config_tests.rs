use dev_monitor::cli_config::{resolve_answer, CliConfig};

#[test]
fn test_default_config() {
    let config = CliConfig::default();
    assert_eq!(config.run_command, "pnpm dev");
    assert_eq!(config.error_pattern, "[Error");
}

#[test]
fn test_get_command_parts() {
    let config = CliConfig {
        run_command: "npm run dev".to_string(),
        error_pattern: "[Error".to_string(),
    };
    let parts = config.get_command_parts();
    assert_eq!(parts, vec!["npm", "run", "dev"]);
}

#[test]
fn command_parts_of_empty_and_blank_commands() {
    let empty = CliConfig {
        run_command: String::new(),
        error_pattern: "[Error".to_string(),
    };
    assert_eq!(empty.get_command_parts(), Vec::<String>::new());

    let blank = CliConfig {
        run_command: "  \t  ".to_string(),
        error_pattern: "[Error".to_string(),
    };
    assert_eq!(blank.get_command_parts(), Vec::<String>::new());
}

#[test]
fn command_parts_collapse_repeated_separators() {
    let config = CliConfig {
        run_command: "  cargo   run\t--release ".to_string(),
        error_pattern: "[Error".to_string(),
    };
    assert_eq!(config.get_command_parts(), vec!["cargo", "run", "--release"]);
}

#[test]
fn command_parts_of_single_word() {
    let config = CliConfig {
        run_command: "make".to_string(),
        error_pattern: "[Error".to_string(),
    };
    assert_eq!(config.get_command_parts(), vec!["make"]);
}

#[test]
fn blank_answer_keeps_default() {
    assert_eq!(resolve_answer("", "pnpm dev"), "pnpm dev");
    assert_eq!(resolve_answer("yarn dev", "pnpm dev"), "yarn dev");
}
