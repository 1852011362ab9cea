use crater_ohos_bot::bot::BotCommand;

#[test]
fn commands_test_parse_run_command() {
    let cmd = BotCommand::parse("@crater-bot run stable beta", "@crater-bot").unwrap();
    assert_eq!(
        cmd,
        Some(BotCommand::Run {
            toolchains: vec!["stable".to_string(), "beta".to_string()]
        })
    );
}

#[test]
fn commands_test_parse_run_command_with_nightly() {
    let cmd = BotCommand::parse("@crater-bot run nightly-2024-01-01 stable", "@crater-bot").unwrap();
    assert_eq!(
        cmd,
        Some(BotCommand::Run {
            toolchains: vec!["nightly-2024-01-01".to_string(), "stable".to_string()]
        })
    );
}

#[test]
fn commands_test_parse_status_command() {
    let cmd = BotCommand::parse("@crater-bot status", "@crater-bot").unwrap();
    assert_eq!(cmd, Some(BotCommand::Status));
}

#[test]
fn commands_test_parse_abort_command() {
    let cmd = BotCommand::parse("@crater-bot abort", "@crater-bot").unwrap();
    assert_eq!(cmd, Some(BotCommand::Abort));
}

#[test]
fn commands_test_parse_help_command() {
    let cmd = BotCommand::parse("@crater-bot help", "@crater-bot").unwrap();
    assert_eq!(cmd, Some(BotCommand::Help));
}

#[test]
fn commands_test_parse_list_command() {
    let cmd = BotCommand::parse("@crater-bot list", "@crater-bot").unwrap();
    assert_eq!(cmd, Some(BotCommand::List));
}

#[test]
fn commands_test_parse_non_bot_comment() {
    let cmd = BotCommand::parse("This is a regular comment", "@crater-bot").unwrap();
    assert_eq!(cmd, None);
}

#[test]
fn commands_test_parse_invalid_command() {
    let result = BotCommand::parse("@crater-bot invalid", "@crater-bot");
    assert!(result.is_err());
}

#[test]
fn commands_test_parse_run_command_insufficient_args() {
    let result = BotCommand::parse("@crater-bot run stable", "@crater-bot");
    assert!(result.is_err());
}
