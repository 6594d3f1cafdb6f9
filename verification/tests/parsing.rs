use landlock_runner::args::{parse_args, UsageError};
use landlock_runner::errors::{
    exit_code, FatalError, CAPABILITY_EXIT_CODE, LAUNCH_EXIT_CODE, RULE_EXIT_CODE, USAGE_EXIT_CODE,
};
use landlock_runner::launch::{validate_command, LaunchError};
use landlock_runner::ruleset::{FacilityState, RawEnforcement, RuleEnforcement, SetupError};

fn argv(parts: &[&str]) -> Vec<Vec<u8>> {
    parts.iter().map(|p| p.as_bytes().to_vec()).collect()
}

#[test]
fn parse_ro_rw_and_command() {
    let args = argv(&["--ro", "/usr", "--rw", "/tmp/work", "--", "echo", "hello"]);
    let parsed = parse_args(&args).unwrap_or_else(|_| panic!("expected a parse"));
    assert_eq!(parsed.ro_paths, vec![b"/usr".to_vec()]);
    assert_eq!(parsed.rw_paths, vec![b"/tmp/work".to_vec()]);
    assert_eq!(parsed.command, vec![b"echo".to_vec(), b"hello".to_vec()]);
}

#[test]
fn parse_keeps_flag_order_within_each_kind() {
    let args = argv(&["--rw", "a", "--ro", "b", "--rw", "c", "--", "run"]);
    let parsed = parse_args(&args).unwrap_or_else(|_| panic!("expected a parse"));
    assert_eq!(parsed.ro_paths, vec![b"b".to_vec()]);
    assert_eq!(parsed.rw_paths, vec![b"a".to_vec(), b"c".to_vec()]);
    assert_eq!(parsed.command, vec![b"run".to_vec()]);
}

#[test]
fn parse_command_only() {
    let args = argv(&["--", "ls", "-l"]);
    let parsed = parse_args(&args).unwrap_or_else(|_| panic!("expected a parse"));
    assert!(parsed.ro_paths.is_empty());
    assert!(parsed.rw_paths.is_empty());
    assert_eq!(parsed.command, vec![b"ls".to_vec(), b"-l".to_vec()]);
}

#[test]
fn parse_missing_separator_is_usage_error() {
    let args = argv(&["--ro", "/usr"]);
    assert_eq!(parse_args(&args).map(|_| ()), Err(UsageError::MissingCommand));
}

#[test]
fn parse_trailing_empty_command_is_usage_error() {
    let args = argv(&["--ro", "/usr", "--"]);
    assert_eq!(parse_args(&args).map(|_| ()), Err(UsageError::MissingCommand));
}

#[test]
fn parse_unknown_flag_is_usage_error() {
    let args = argv(&["--rx", "/usr", "--", "true"]);
    assert_eq!(parse_args(&args).map(|_| ()), Err(UsageError::Malformed));
}

#[test]
fn parse_flag_without_path_is_usage_error() {
    let args = argv(&["--ro"]);
    assert_eq!(parse_args(&args).map(|_| ()), Err(UsageError::Malformed));
}

#[test]
fn parse_no_arguments_is_usage_error() {
    let args: Vec<Vec<u8>> = Vec::new();
    assert_eq!(parse_args(&args).map(|_| ()), Err(UsageError::Malformed));
}

#[test]
fn validate_accepts_clean_command() {
    let cmd = argv(&["echo", "hello"]);
    assert!(validate_command(&cmd).is_ok());
}

#[test]
fn validate_rejects_embedded_null_byte() {
    let cmd = vec![b"echo".to_vec(), b"he\0llo".to_vec()];
    match validate_command(&cmd) {
        Err(LaunchError::NulArgument { index }) => assert_eq!(index, 1),
        Ok(()) => panic!("null byte accepted"),
    }
}

#[test]
fn exit_codes_match_the_error_taxonomy() {
    assert_eq!(exit_code(&FatalError::Usage(UsageError::Malformed)), 64);
    assert_eq!(exit_code(&FatalError::Usage(UsageError::MissingCommand)), 64);
    assert_eq!(
        exit_code(&FatalError::Setup(SetupError::RuleInstallation {
            path: b"/nonexistent".to_vec(),
            detail: String::from("open failed"),
        })),
        111
    );
    assert_eq!(
        exit_code(&FatalError::Setup(SetupError::RulesetCreation(String::from("probe failed")))),
        112
    );
    assert_eq!(
        exit_code(&FatalError::Setup(SetupError::Restriction(String::from("call failed")))),
        112
    );
    let raw = RawEnforcement {
        facility: FacilityState::NotImplemented,
        degree: RuleEnforcement::NotEnforced,
    };
    assert_eq!(exit_code(&FatalError::Setup(SetupError::Unavailable(raw))), 112);
    assert_eq!(
        exit_code(&FatalError::Launch(LaunchError::NulArgument { index: 0 })),
        126
    );
    assert_eq!(USAGE_EXIT_CODE, 64);
    assert_eq!(RULE_EXIT_CODE, 111);
    assert_eq!(CAPABILITY_EXIT_CODE, 112);
    assert_eq!(LAUNCH_EXIT_CODE, 126);
}
