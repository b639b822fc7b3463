use ptimer::cmd::history_cmd;
use ptimer::command::history as first_history;
use ptimer::command::new::start_message_text;
use ptimer::config::Config;
use ptimer::db::History;
use ptimer::history::{history_lines, listing_with, print_history};
use ptimer::notification::{notification_script, notification_title};
use ptimer::text::{i64_text, u64_text};

fn strings(v: &[&str]) -> Vec<String> {
    v.iter().map(|s| s.to_string()).collect()
}

#[test]
fn decimal_texts() {
    assert_eq!(u64_text(0), "0");
    assert_eq!(u64_text(1500), "1500");
    assert_eq!(u64_text(u64::MAX), u64::MAX.to_string());
    assert_eq!(i64_text(-100), "-100");
    assert_eq!(i64_text(i64::MIN), i64::MIN.to_string());
    assert_eq!(i64_text(i64::MAX), i64::MAX.to_string());
    assert_eq!(i64_text(7), "7");
}

#[test]
fn history_line_texts() {
    let h = History { id: 3, started_at: 1_700_000_000, duration: 1500 };
    assert_eq!(h.line_with("WHEN", true), "id: 3, started_at: WHEN, duration: 25m");
    assert_eq!(h.line_with("WHEN", false), "started_at: WHEN, duration: 25m");
    let h = History { id: 4, started_at: 1_700_000_000, duration: 4830 };
    assert_eq!(h.line_with("W", false), "started_at: W, duration: 1h 20m 30s");
    let line = h.line(true);
    assert!(line.starts_with("id: 4, started_at: "));
    assert!(line.ends_with(", duration: 1h 20m 30s"));
}

#[test]
fn listing_shows_todays_under_a_heading() {
    let lines = strings(&["a", "b", "c"]);
    let r = listing_with(lines.clone(), &vec![1, 2, 1], 1, false);
    assert_eq!(r, strings(&["Today's history:", "a", "c"]));
}

#[test]
fn listing_shows_all_when_asked() {
    let lines = strings(&["a", "b", "c"]);
    assert_eq!(listing_with(lines.clone(), &vec![1, 2, 1], 1, true), lines);
}

#[test]
fn listing_shows_nothing_when_none_is_today() {
    let lines = strings(&["a", "b"]);
    assert_eq!(listing_with(lines.clone(), &vec![5, 6], 7, false), Vec::<String>::new());
    assert_eq!(listing_with(lines.clone(), &vec![5, 6], 7, true), lines);
    assert_eq!(listing_with(Vec::new(), &Vec::new(), 7, false), Vec::<String>::new());
}

#[test]
fn history_commands_give_one_line_per_timer() {
    let hs = vec![
        History { id: 1, started_at: 1_700_000_000, duration: 60 },
        History { id: 2, started_at: 1_600_000_000, duration: 120 },
    ];
    let lines = history_lines(&hs, false);
    assert_eq!(lines.len(), 2);
    assert!(lines[0].ends_with("duration: 1m"));
    assert!(lines[1].ends_with("duration: 2m"));
    let first = first_history::run(&hs);
    assert!(first[0].starts_with("id: 1, "));
    assert!(first[1].starts_with("id: 2, "));
    // none of these finished today, so by default nothing is shown
    assert_eq!(print_history(&hs, false, false), Vec::<String>::new());
    assert_eq!(history_cmd::run(&hs, true, false), lines);
}

#[test]
fn notification_texts() {
    let c = Config::for_home("/h", false);
    assert_eq!(notification_title(&c), "mm-pomodoro");
    assert_eq!(
        notification_script(&c, "Time is up"),
        r#"display dialog "Time is up" with title "mm-pomodoro" buttons {"OK"} default button "OK""#
    );
    let d = Config::for_home("/h", true);
    assert_eq!(notification_title(&d), "mm-pomodoro-dev");
}

#[test]
fn start_message() {
    assert_eq!(start_message_text(1500, 0), "starting a new timer with duration: 25m");
    assert_eq!(start_message_text(4830, 0), "starting a new timer with duration: 1h 20m 30s");
}

#[test]
fn todays_timers_come_under_a_heading() {
    let now = std::time::SystemTime::now().duration_since(std::time::UNIX_EPOCH).unwrap().as_secs() as i64;
    let hs = vec![
        History { id: 9, started_at: now, duration: 1500 },
        History { id: 8, started_at: 1_000_000_000, duration: 60 },
    ];
    let shown = history_cmd::run(&hs, false, true);
    assert_eq!(shown.len(), 2);
    assert_eq!(shown[0], "Today's history:");
    assert!(shown[1].starts_with("id: 9, started_at: "));
    assert!(shown[1].ends_with(", duration: 25m"));
    let all = history_cmd::run(&hs, true, true);
    assert_eq!(all.len(), 2);
    assert!(all[1].starts_with("id: 8, "));
}

#[test]
fn lengths_as_humantime_writes_them() {
    assert_eq!(start_message_text(0, 0), "starting a new timer with duration: 0s");
    assert_eq!(start_message_text(31_557_600 * 2 + 2_630_016 + 86400 * 3 + 1, 0),
        "starting a new timer with duration: 2years 1month 3days 1s");
    assert_eq!(start_message_text(86400 + 60, 0), "starting a new timer with duration: 1day 1m");
    assert_eq!(start_message_text(0, 1_002_003), "starting a new timer with duration: 1ms 2us 3ns");
    assert_eq!(start_message_text(1, 500_000_000), "starting a new timer with duration: 1s 500ms");
}
