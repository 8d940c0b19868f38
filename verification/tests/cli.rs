use penta_top_hat::cli::{
    parse_percent, parse_seconds, usage, version, Args, CliArg, DEFAULT_CONFIG_PATH,
    DEFAULT_CPU_TEMP_PATH, DEFAULT_ENV_FILE,
};

fn parse(args: &[&str]) -> Result<Args, String> {
    let args: Vec<CliArg> = args.iter().map(|arg| CliArg::Utf8(arg.to_string())).collect();
    Args::parse_from(&args)
}

#[test]
fn parses_defaults() {
    let args = parse(&["daemon"]).expect("default args should parse");
    assert_eq!(args.config_path, DEFAULT_CONFIG_PATH);
    assert_eq!(args.env_file, DEFAULT_ENV_FILE);
    assert_eq!(args.cpu_temp_path, DEFAULT_CPU_TEMP_PATH);
    assert!(!args.dry_run);
    assert!(!args.once);
    assert!(!args.version);
    assert_eq!(args.test_fan_duty, None);
    assert_eq!(args.test_fan_seconds, 10);
}

#[test]
fn parses_flags_and_paths() {
    let args = parse(&[
        "daemon",
        "--config",
        "/tmp/config.ini",
        "--env-file=/tmp/pins.env",
        "--cpu-temp-path",
        "/tmp/temp",
        "--dry-run",
        "--once",
        "--test-fan-duty",
        "25",
        "--test-fan-seconds=3",
    ])
    .expect("explicit args should parse");

    assert_eq!(args.config_path, "/tmp/config.ini");
    assert_eq!(args.env_file, "/tmp/pins.env");
    assert_eq!(args.cpu_temp_path, "/tmp/temp");
    assert!(args.dry_run);
    assert!(args.once);
    assert_eq!(args.test_fan_duty, Some(25));
    assert_eq!(args.test_fan_seconds, 3);
}

#[test]
fn rejects_invalid_fan_test_duty() {
    let err = parse(&["daemon", "--test-fan-duty", "101"])
        .expect_err("invalid percent should fail");

    assert!(err.contains("--test-fan-duty"));
}

#[test]
fn parses_and_reports_version() {
    let args = parse(&["daemon", "--version"]).expect("version flag should parse");

    assert!(args.version);
    assert_eq!(version(), "radxa-penta-top-hat-rs 1.0.1+local.4");
}

#[test]
fn defaults_stand_for_an_empty_command_line() {
    assert_eq!(Args::parse_from(&[]), Ok(Args::default()));
    assert_eq!(Args::default().config_path, "/etc/rockpi-penta.conf");
    assert_eq!(Args::default().env_file, "/etc/rockpi-penta.env");
    assert_eq!(
        Args::default().cpu_temp_path,
        "/sys/class/thermal/thermal_zone0/temp"
    );
    assert_eq!(Args::parse_from(&[CliArg::NotUtf8]), Ok(Args::default()));
}

#[test]
fn short_flags_are_understood() {
    assert!(parse(&["daemon", "-h"]).unwrap().help);
    assert!(parse(&["daemon", "--help"]).unwrap().help);
    assert!(parse(&["daemon", "-V"]).unwrap().version);
}

#[test]
fn both_forms_give_the_same_value() {
    for (flag, value) in [
        ("--config", "/a=b"),
        ("--env-file", "x"),
        ("--cpu-temp-path", "--once"),
        ("--test-fan-duty", "100"),
        ("--test-fan-seconds", "+7"),
    ] {
        let joined = format!("{flag}={value}");
        let first = parse(&["daemon", &joined]).unwrap();
        assert_eq!(Ok(first), parse(&["daemon", flag, value]));
    }
}

#[test]
fn an_empty_value_is_accepted_only_after_the_equals_sign() {
    assert_eq!(parse(&["daemon", "--config="]).unwrap().config_path, "");
    assert_eq!(
        parse(&["daemon", "--config", ""]),
        Err("--config value must not be empty".to_string())
    );
}

#[test]
fn the_last_of_several_values_counts() {
    let args = parse(&["daemon", "--config=a", "--config", "b", "--once", "--once"]).unwrap();
    assert_eq!(args.config_path, "b");
    assert!(args.once);
}

#[test]
fn errors_tell_what_is_wrong() {
    let cases: [(&[&str], &str); 9] = [
        (&["d", "--env-file"], "--env-file requires a value"),
        (&["d", "stray"], "unknown argument: stray"),
        (&["d", ""], "unknown argument: "),
        (&["d", "--configs=x"], "unknown argument: --configs=x"),
        (
            &["d", "--test-fan-duty=256"],
            "--test-fan-duty must be an integer from 0 to 100",
        ),
        (
            &["d", "--test-fan-duty=x"],
            "--test-fan-duty must be an integer from 0 to 100",
        ),
        (
            &["d", "--test-fan-seconds=0"],
            "--test-fan-seconds must be greater than zero",
        ),
        (
            &["d", "--test-fan-seconds=-1"],
            "--test-fan-seconds must be a positive integer",
        ),
        (
            &["d", "--test-fan-seconds", "18446744073709551616"],
            "--test-fan-seconds must be a positive integer",
        ),
    ];
    for (args, message) in cases {
        assert_eq!(parse(args), Err(message.to_string()));
    }
}

#[test]
fn arguments_that_are_no_text_are_errors() {
    let program = CliArg::Utf8("d".to_string());
    assert_eq!(
        Args::parse_from(&[program.clone(), CliArg::NotUtf8]),
        Err("arguments must be valid UTF-8".to_string())
    );
    assert_eq!(
        Args::parse_from(&[
            program,
            CliArg::Utf8("--config".to_string()),
            CliArg::NotUtf8
        ]),
        Err("--config value must be valid UTF-8".to_string())
    );
}

#[test]
fn percentages_and_seconds_are_read() {
    assert_eq!(parse_percent("0", "-x"), Ok(0));
    assert_eq!(parse_percent("+100", "-x"), Ok(100));
    assert_eq!(
        parse_percent("101", "-x"),
        Err("-x must be an integer from 0 to 100".to_string())
    );
    assert_eq!(parse_seconds("18446744073709551615", "-x"), Ok(u64::MAX));
    assert_eq!(
        parse_seconds("000", "-x"),
        Err("-x must be greater than zero".to_string())
    );
}

#[test]
fn usage_names_the_program_and_the_defaults() {
    let expected = "\
Usage: hatd [OPTIONS]

Options:
      --config <PATH>         Config file path [default: /etc/rockpi-penta.conf]
      --env-file <PATH>       Board pin env file path [default: /etc/rockpi-penta.env]
      --cpu-temp-path <PATH>  CPU temp path [default: /sys/class/thermal/thermal_zone0/temp]
      --dry-run               Print fan decisions without hardware output
      --once                  Take one sample and exit
      --test-fan-duty <0-100> Set fan duty for a bounded manual test
      --test-fan-seconds <N>  Manual fan test duration [default: 10]
  -V, --version               Print version
  -h, --help                  Show this help
";
    assert_eq!(usage("hatd"), expected);
}
