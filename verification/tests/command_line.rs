use ptimer::cli::{within_humantime_range_of, duration_with_unit, reads_as_u64, run, Action, Cli, CliError, Commands};
use ptimer::config::Config;

fn new_timer(duration: &str) -> Result<Action, CliError> {
    run(&Cli { command: Some(Commands::New { duration: duration.to_string() }) })
}

#[test]
fn no_command_means_status() {
    let cli = Cli { command: None };
    assert!(matches!(cli.command(), Commands::Status));
    assert_eq!(run(&cli).unwrap(), Action::ShowStatus);
}

#[test]
fn commands_map_to_actions() {
    let cases = vec![
        (Commands::Status, Action::ShowStatus),
        (Commands::Pause, Action::Pause),
        (Commands::Resume, Action::Resume),
        (Commands::Stop, Action::Stop),
        (Commands::History { all: true, print_id: false }, Action::ShowHistory { all: true, print_id: false }),
        (Commands::DeleteHistory { id: 7 }, Action::DeleteHistory { id: 7 }),
    ];
    for (c, a) in cases {
        assert_eq!(run(&Cli { command: Some(c) }).unwrap(), a);
    }
}

#[test]
fn a_bare_number_counts_minutes() {
    assert_eq!(new_timer("30").unwrap(), Action::StartTimer { secs: 1800, nanos: 0 });
    assert_eq!(new_timer("0").unwrap(), Action::StartTimer { secs: 0, nanos: 0 });
    assert_eq!(new_timer("007").unwrap(), Action::StartTimer { secs: 420, nanos: 0 });
}

#[test]
fn lengths_with_units() {
    assert_eq!(new_timer("1h20m30s").unwrap(), Action::StartTimer { secs: 4830, nanos: 0 });
    assert_eq!(new_timer("25m").unwrap(), Action::StartTimer { secs: 1500, nanos: 0 });
    assert_eq!(new_timer("90s").unwrap(), Action::StartTimer { secs: 90, nanos: 0 });
    assert_eq!(new_timer("1.5s").unwrap(), Action::StartTimer { secs: 1, nanos: 500_000_000 });
}

#[test]
fn rejected_lengths() {
    assert!(matches!(new_timer("abc"), Err(CliError::InvalidDuration(_))));
    assert!(matches!(new_timer(""), Err(CliError::InvalidDuration(_))));
    // `+30` reads as a number, gets minutes, and humantime refuses the sign
    assert!(matches!(new_timer("+30"), Err(CliError::InvalidDuration(_))));
    assert!(matches!(new_timer("-5m"), Err(CliError::InvalidDuration(_))));
    // numbers too large for humantime to be asked
    assert!(matches!(new_timer("18446744073709551615"), Err(CliError::DurationTooLarge)));
    assert!(matches!(new_timer("18446744073709551615s1000000000ns"), Err(CliError::DurationTooLarge)));
    assert!(matches!(new_timer("584542046090y"), Err(CliError::DurationTooLarge)));
    // just within the range humantime is asked about
    assert_eq!(new_timer("7013928460399").unwrap(), Action::StartTimer { secs: 7013928460399 * 60, nanos: 0 });
    assert!(matches!(new_timer("7013928460400"), Err(CliError::DurationTooLarge)));
    // a large count of seconds is still read
    assert_eq!(new_timer("1000000000000s").unwrap(), Action::StartTimer { secs: 1_000_000_000_000, nanos: 0 });
}

#[test]
fn range_of_humantime_texts() {
    assert!(within_humantime_range_of("1h20m30s"));
    assert!(within_humantime_range_of(""));
    assert!(within_humantime_range_of("18446744073709551613"));
    assert!(!within_humantime_range_of("18446744073709551614"));
    assert!(within_humantime_range_of("7013928460399m"));
    assert!(!within_humantime_range_of("7013928460400m"));
    assert!(within_humantime_range_of("584542046088y"));
    assert!(!within_humantime_range_of("584542046090y"));
    assert!(!within_humantime_range_of("18446744073709551614 s"));
    assert!(within_humantime_range_of("1 000 000 000 000s"));
    assert!(within_humantime_range_of("1.5h 20 min"));
}

#[test]
fn numbers_as_parse_u64_reads_them() {
    assert!(reads_as_u64("30"));
    assert!(reads_as_u64("+30"));
    assert!(reads_as_u64("18446744073709551615"));
    assert!(!reads_as_u64("18446744073709551616"));
    assert!(!reads_as_u64("+"));
    assert!(!reads_as_u64(""));
    assert!(!reads_as_u64("-1"));
    assert!(!reads_as_u64("3m"));
    assert!(!reads_as_u64("٣"));
    for s in ["0", "12", "+7", "99999999999999999999", "1 ", " 1", "x"] {
        assert_eq!(reads_as_u64(s), s.parse::<u64>().is_ok(), "{s}");
    }
}

#[test]
fn unit_is_appended_to_numbers_only() {
    assert_eq!(duration_with_unit("30"), "30m");
    assert_eq!(duration_with_unit("30s"), "30s");
    assert_eq!(duration_with_unit("1h"), "1h");
}

#[test]
fn program_run_gives_config_and_action() {
    let (config, action) = ptimer::run("/home/u", false, &Cli { command: Some(Commands::New { duration: "5".to_string() }) });
    assert_eq!(config.db_path, "/home/u/.local/ptimer/ptimer.db");
    assert_eq!(action.unwrap(), Action::StartTimer { secs: 300, nanos: 0 });
}

#[test]
fn config_paths() {
    let c = Config::for_home("/home/u", false);
    assert!(!c.debug_mode);
    assert_eq!(c.daemon_pidfile, "/home/u/.local/ptimer/ptimer.pid");
    assert_eq!(c.daemon_stdout, "/home/u/.local/ptimer/stdout.log");
    assert_eq!(c.daemon_stderr, "/home/u/.local/ptimer/stderr.log");
    assert_eq!(c.grpc_uds_path, "/home/u/.local/ptimer/grpc.sock");
    assert_eq!(c.db_path, "/home/u/.local/ptimer/ptimer.db");
    let d = Config::for_home("/root", true);
    assert!(d.debug_mode);
    assert_eq!(d.db_path, "/root/.local/ptimer-dev/ptimer.db");
    assert_eq!(Config::app_dir("/root", true), "/root/.local/ptimer-dev");
}
