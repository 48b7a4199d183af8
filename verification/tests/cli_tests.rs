use caffeinate::cli::{parse_args, can_parse, CliError, Config, ValueKind, WaitMode};
use caffeinate::errors::StrategyKind;

fn args(toks: &[&str]) -> Vec<String> {
    toks.iter().map(|t| t.to_string()).collect()
}

#[test]
fn empty_command_line_is_idle_forever() {
    let cfg = parse_args(&args(&[])).unwrap();
    assert_eq!(cfg.strategy, StrategyKind::SystemIdle);
    assert_eq!(cfg.mode, WaitMode::Forever);
}

#[test]
fn display_flag_selects_display_strategy() {
    let cfg = parse_args(&args(&["-d"])).unwrap();
    assert_eq!(cfg.strategy, StrategyKind::Display);
    assert_eq!(cfg.mode, WaitMode::Forever);
}

#[test]
fn idle_flag_selects_system_strategy() {
    let cfg = parse_args(&args(&["-i"])).unwrap();
    assert_eq!(cfg.strategy, StrategyKind::SystemIdle);
    assert_eq!(cfg.mode, WaitMode::Forever);
}

#[test]
fn display_and_idle_conflict() {
    assert_eq!(parse_args(&args(&["-d", "-i"])), Err(CliError::ConflictDisplayIdle));
    assert_eq!(parse_args(&args(&["-i", "-d"])), Err(CliError::ConflictDisplayIdle));
}

#[test]
fn timeout_mode_parses_seconds() {
    let cfg = parse_args(&args(&["-t", "5"])).unwrap();
    assert_eq!(cfg.strategy, StrategyKind::SystemIdle);
    assert_eq!(cfg.mode, WaitMode::Timeout(5));
}

#[test]
fn timeout_accepts_plus_sign_and_largest_value() {
    let cfg = parse_args(&args(&["-t", "+7"])).unwrap();
    assert_eq!(cfg.mode, WaitMode::Timeout(7));
    let cfg = parse_args(&args(&["-t", "18446744073709551615"])).unwrap();
    assert_eq!(cfg.mode, WaitMode::Timeout(u64::MAX));
}

#[test]
fn timeout_rejects_overflow_and_garbage() {
    assert_eq!(
        parse_args(&args(&["-t", "18446744073709551616"])),
        Err(CliError::InvalidTimeoutValue),
    );
    assert_eq!(parse_args(&args(&["-t", "5s"])), Err(CliError::InvalidTimeoutValue));
    assert_eq!(parse_args(&args(&["-t", ""])), Err(CliError::InvalidTimeoutValue));
    assert_eq!(parse_args(&args(&["-t", "-5"])), Err(CliError::InvalidTimeoutValue));
}

#[test]
fn missing_values_are_rejected() {
    assert_eq!(parse_args(&args(&["-t"])), Err(CliError::MissingTimeoutValue));
    assert_eq!(parse_args(&args(&["-w"])), Err(CliError::MissingPidValue));
}

#[test]
fn duplicate_options_are_rejected() {
    assert_eq!(parse_args(&args(&["-t", "5", "-t", "6"])), Err(CliError::DuplicateTimeout));
    assert_eq!(parse_args(&args(&["-w", "1", "-w", "2"])), Err(CliError::DuplicatePid));
}

#[test]
fn duplicate_mode_flags_are_rejected() {
    assert_eq!(parse_args(&args(&["-d", "-d"])), Err(CliError::DuplicateDisplay));
    assert_eq!(parse_args(&args(&["-i", "-i"])), Err(CliError::DuplicateIdle));
}

#[test]
fn pid_mode_parses_pid() {
    let cfg = parse_args(&args(&["-w", "999999"])).unwrap();
    assert_eq!(cfg.mode, WaitMode::WaitPid(999999));
    let cfg = parse_args(&args(&["-d", "-w", "-1"])).unwrap();
    assert_eq!(cfg.strategy, StrategyKind::Display);
    assert_eq!(cfg.mode, WaitMode::WaitPid(-1));
}

#[test]
fn pid_bounds_are_those_of_i32() {
    let cfg = parse_args(&args(&["-w", "2147483647"])).unwrap();
    assert_eq!(cfg.mode, WaitMode::WaitPid(i32::MAX));
    let cfg = parse_args(&args(&["-w", "-2147483648"])).unwrap();
    assert_eq!(cfg.mode, WaitMode::WaitPid(i32::MIN));
    assert_eq!(parse_args(&args(&["-w", "2147483648"])), Err(CliError::InvalidPidValue));
    assert_eq!(parse_args(&args(&["-w", "-2147483649"])), Err(CliError::InvalidPidValue));
}

#[test]
fn timeout_and_pid_conflict() {
    assert_eq!(parse_args(&args(&["-t", "5", "-w", "42"])), Err(CliError::ConflictTimeoutPid));
}

#[test]
fn utility_mode_takes_the_trailing_tokens() {
    let cfg = parse_args(&args(&["false"])).unwrap();
    assert_eq!(cfg.mode, WaitMode::Utility(args(&["false"])));
    let cfg = parse_args(&args(&["-d", "echo", "-n", "hi"])).unwrap();
    assert_eq!(cfg.strategy, StrategyKind::Display);
    assert_eq!(cfg.mode, WaitMode::Utility(args(&["echo", "-n", "hi"])));
}

#[test]
fn utility_conflicts_with_timeout_and_pid() {
    assert_eq!(parse_args(&args(&["-t", "5", "sleep", "1"])), Err(CliError::ConflictWaitUtility));
    assert_eq!(parse_args(&args(&["-w", "42", "sleep"])), Err(CliError::ConflictWaitUtility));
}

#[test]
fn unknown_flags_are_rejected() {
    assert_eq!(parse_args(&args(&["-x"])), Err(CliError::UnknownFlag));
    assert_eq!(parse_args(&args(&["--display"])), Err(CliError::UnknownFlag));
}

#[test]
fn double_dash_ends_flag_reading() {
    let cfg = parse_args(&args(&["--", "-d"])).unwrap();
    assert_eq!(cfg.strategy, StrategyKind::SystemIdle);
    assert_eq!(cfg.mode, WaitMode::Utility(args(&["-d"])));
    let cfg = parse_args(&args(&["-d", "--", "echo", "hi"])).unwrap();
    assert_eq!(cfg.strategy, StrategyKind::Display);
    assert_eq!(cfg.mode, WaitMode::Utility(args(&["echo", "hi"])));
}

#[test]
fn trailing_double_dash_leaves_no_utility() {
    let cfg = parse_args(&args(&["--"])).unwrap();
    assert_eq!(cfg.mode, WaitMode::Forever);
    let cfg = parse_args(&args(&["-t", "5", "--"])).unwrap();
    assert_eq!(cfg.mode, WaitMode::Timeout(5));
}

#[test]
fn lone_dash_is_a_utility_name() {
    let cfg = parse_args(&args(&["-"])).unwrap();
    assert_eq!(cfg.mode, WaitMode::Utility(args(&["-"])));
}

#[test]
fn can_parse_accepts_and_rejects_by_kind() {
    assert!(can_parse(&"5".to_string(), ValueKind::Seconds).is_ok());
    assert!(can_parse(&"+5".to_string(), ValueKind::Seconds).is_ok());
    assert_eq!(
        can_parse(&"five".to_string(), ValueKind::Seconds),
        Err("Value wasn't a valid u64".to_string()),
    );
    assert!(can_parse(&"-5".to_string(), ValueKind::Pid).is_ok());
    assert_eq!(
        can_parse(&"2147483648".to_string(), ValueKind::Pid),
        Err("Value wasn't a valid i32".to_string()),
    );
}

#[test]
fn cli_errors_explain_themselves() {
    assert_eq!(CliError::ConflictDisplayIdle.message(), "-d cannot be used with -i");
    assert_eq!(CliError::UnknownFlag.message(), "unrecognized flag");
}

#[test]
fn config_mode_has_timeout_precedence_in_reporting() {
    let cfg: Config = parse_args(&args(&["-i", "-t", "0"])).unwrap();
    assert_eq!(cfg.strategy, StrategyKind::SystemIdle);
    assert_eq!(cfg.mode, WaitMode::Timeout(0));
}
