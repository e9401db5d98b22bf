use unigen::args::{Args, KillAction, KillEvent};
use unigen::trace::{log_setup, shows_location};

fn args(debug: bool, log_filter: Option<&str>, kill: bool) -> Args {
    Args::new(None, debug, log_filter.map(String::from), None, kill)
}

#[test]
fn new_keeps_every_value() {
    let a = Args::new(
        Some("/work/book".to_string()),
        true,
        Some("info".to_string()),
        Some("/tmp/log.txt".to_string()),
        true,
    );
    assert_eq!(a.project.as_deref(), Some("/work/book"));
    assert!(a.debug);
    assert_eq!(a.log_filter.as_deref(), Some("info"));
    assert_eq!(a.log_file.as_deref(), Some("/tmp/log.txt"));
    assert!(a.kill);
}

#[test]
fn default_log_filter_follows_the_build() {
    assert_eq!(Args::default_log_filter(true), "debug");
    assert_eq!(Args::default_log_filter(false), "warn");
}

#[test]
fn effective_log_filter_prefers_the_debug_flag() {
    assert_eq!(args(true, Some("info"), false).effective_log_filter(), Some("debug"));
    assert_eq!(args(true, None, false).effective_log_filter(), Some("debug"));
    assert_eq!(
        args(false, Some("info,my_crate=debug"), false).effective_log_filter(),
        Some("info,my_crate=debug")
    );
    assert_eq!(args(false, None, false).effective_log_filter(), None);
}

#[test]
fn kill_is_not_touched_without_the_flag() {
    let a = args(false, None, false);
    assert_eq!(a.kill_step(KillEvent::Begin), KillAction::Proceed);
    assert_eq!(a.kill_step(KillEvent::PidRead(5)), KillAction::Proceed);
    assert_eq!(a.kill_step(KillEvent::Sent(true)), KillAction::Proceed);
}

#[test]
fn kill_reads_the_pid_and_addresses_the_command() {
    let a = args(false, None, true);
    assert_eq!(a.kill_step(KillEvent::Begin), KillAction::ReadPid);
    assert_eq!(a.kill_step(KillEvent::PidRead(12345)), KillAction::Send(12345));
    assert_eq!(a.kill_step(KillEvent::Sent(true)), KillAction::Exit(0));
}

#[test]
fn kill_exits_non_zero_without_an_instance_or_a_confirmation() {
    let a = args(false, None, true);
    assert_eq!(a.kill_step(KillEvent::PidRead(0)), KillAction::Exit(1));
    assert_eq!(a.kill_step(KillEvent::Sent(false)), KillAction::Exit(1));
}

#[test]
fn shows_location_for_debug_and_trace_filters() {
    assert!(shows_location("debug"));
    assert!(shows_location("trace"));
    assert!(shows_location("info,my_crate=debug"));
    assert!(shows_location("warn,sqlx=trace"));
    assert!(!shows_location("info"));
    assert!(!shows_location("warn,sqlx::query=off"));
    assert!(!shows_location(""));
    assert!(!shows_location("DEBUG"));
}

#[test]
fn log_setup_takes_filter_and_detail_from_the_arguments() {
    let given =
        Args::new(None, false, Some("info".to_string()), Some("/tmp/a.log".to_string()), false);
    let s = log_setup(&given, true);
    assert_eq!(s.filter.as_deref(), Some("info"));
    assert_eq!(s.fallback, "debug");
    assert!(!s.show_location);
    assert_eq!(s.log_file.as_deref(), Some("/tmp/a.log"));

    let debug = log_setup(&args(true, Some("info"), false), false);
    assert_eq!(debug.filter.as_deref(), Some("debug"));
    assert_eq!(debug.fallback, "warn");
    assert!(debug.show_location);
    assert_eq!(debug.log_file, None);
}

#[test]
fn log_setup_falls_back_on_the_build() {
    let release = log_setup(&args(false, None, false), false);
    assert_eq!(release.filter, None);
    assert_eq!(release.fallback, "warn");
    assert!(!release.show_location);
    let dev = log_setup(&args(false, None, false), true);
    assert_eq!(dev.filter, None);
    assert_eq!(dev.fallback, "debug");
    assert!(dev.show_location);
}
