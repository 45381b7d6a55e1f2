use votor_measurement_harness::config::{
    default_output_path_for, parse_u64, CliCommand, Config, ConfigError, Flag,
};
use votor_measurement_harness::profile::Profile;

fn args(values: &[&str]) -> Vec<String> {
    values.iter().map(|value| value.to_string()).collect()
}

fn run(env_profile: Option<&str>, env_out: Option<&str>, values: &[&str]) -> Result<CliCommand, ConfigError> {
    Config::from_env_and_args(
        env_profile.map(|p| p.to_string()),
        env_out.map(|p| p.to_string()),
        args(values),
    )
}

fn expect_run(result: Result<CliCommand, ConfigError>) -> Config {
    match result {
        Ok(CliCommand::Run(config)) => config,
        other => panic!("expected a run, got {:?}", other),
    }
}

#[test]
fn defaults_come_from_the_profile() {
    let config = expect_run(run(None, None, &[]));
    assert_eq!(config.profile, Profile::Baseline);
    assert_eq!(config.iterations, 200);
    assert_eq!(config.output_path(), "artifacts/banking-jitter/baseline/trace.json");

    let config = expect_run(run(Some("io_stall"), None, &[]));
    assert_eq!(config.profile, Profile::IoStall);
    assert_eq!(config.iterations, 120);
    assert_eq!(config.output_path, "artifacts/banking-jitter/io_stall/trace.json");
}

#[test]
fn arguments_override_the_environment() {
    let config = expect_run(run(
        Some("io_stall"),
        Some("env/trace.json"),
        &["--profile", "allocator_pressure", "--iterations", "7", "--out", "cli/trace.json"],
    ));
    assert_eq!(config.profile, Profile::AllocatorPressure);
    assert_eq!(config.iterations, 7);
    assert_eq!(config.output_path, "cli/trace.json");

    let config = expect_run(run(None, Some("env/trace.json"), &["--profile", "cpu_saturation"]));
    assert_eq!(config.iterations, 200);
    assert_eq!(config.output_path, "env/trace.json");
}

#[test]
fn the_last_occurrence_wins() {
    let config = expect_run(run(None, None, &["--iterations", "3", "--iterations", "+9"]));
    assert_eq!(config.iterations, 9);
}

#[test]
fn help_stops_reading() {
    assert!(matches!(run(None, None, &["--help"]), Ok(CliCommand::Help)));
    assert!(matches!(run(None, None, &["-h", "--bogus"]), Ok(CliCommand::Help)));
    assert!(matches!(run(Some("nope"), None, &["--iterations", "4", "-h"]), Ok(CliCommand::Help)));
    assert!(matches!(
        run(None, None, &["--bogus", "--help"]),
        Err(ConfigError::UnknownArgument(arg)) if arg == "--bogus"
    ));
}

#[test]
fn options_need_values() {
    assert!(matches!(run(None, None, &["--profile"]), Err(ConfigError::MissingValue(Flag::Profile))));
    assert!(matches!(
        run(None, None, &["--iterations"]),
        Err(ConfigError::MissingValue(Flag::Iterations))
    ));
    assert!(matches!(run(None, None, &["--out"]), Err(ConfigError::MissingValue(Flag::Out))));
}

#[test]
fn bad_values_are_refused() {
    assert!(matches!(
        run(None, None, &["--iterations", "ten"]),
        Err(ConfigError::InvalidIterations(value)) if value == "ten"
    ));
    assert!(matches!(
        run(None, None, &["--profile", "turbo"]),
        Err(ConfigError::UnknownProfile(name)) if name == "turbo"
    ));
    assert!(matches!(
        run(Some("turbo"), None, &["--bogus"]),
        Err(ConfigError::UnknownArgument(arg)) if arg == "--bogus"
    ));
}

#[test]
fn u64_values_parse_like_std() {
    assert_eq!(parse_u64("0"), Some(0));
    assert_eq!(parse_u64("120"), Some(120));
    assert_eq!(parse_u64("+42"), Some(42));
    assert_eq!(parse_u64("007"), Some(7));
    assert_eq!(parse_u64("18446744073709551615"), Some(u64::MAX));
    assert_eq!(parse_u64("18446744073709551616"), None);
    assert_eq!(parse_u64("99999999999999999999x"), None);
    assert_eq!(parse_u64(""), None);
    assert_eq!(parse_u64("+"), None);
    assert_eq!(parse_u64("-1"), None);
    assert_eq!(parse_u64(" 1"), None);
    assert_eq!(parse_u64("1_000"), None);
    for text in ["0", "120", "+42", "007", "18446744073709551615", "18446744073709551616", "", "+", "-1", "++1", "4a"] {
        assert_eq!(parse_u64(text), text.parse::<u64>().ok(), "{text}");
    }
}

#[test]
fn default_trace_paths() {
    assert_eq!(
        default_output_path_for(Profile::CpuSaturation),
        "artifacts/banking-jitter/cpu_saturation/trace.json"
    );
}
