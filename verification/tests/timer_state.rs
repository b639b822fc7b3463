use ptimer::clock::{MAX_TIMESTAMP, MIN_TIMESTAMP};
use ptimer::state::{Progress, State};

const T0: i64 = 1_700_000_000;

#[test]
fn new_timer_runs_for_its_interval() {
    let s = State::new_at(1500, T0);
    assert_eq!(s.started_at, T0);
    assert_eq!(s.finish_at, T0 + 1500);
    assert!(!s.stopped);
    assert!(!s.paused);
    assert_eq!(s.paused_seconds, 0);
    assert_eq!(s.duration, 1500);
}

#[test]
fn need_to_stop_only_after_the_end() {
    let s = State::new_at(60, T0);
    assert!(!s.need_to_stop_at(T0));
    assert!(!s.need_to_stop_at(T0 + 60));
    assert!(s.need_to_stop_at(T0 + 61));
    assert!(!s.is_truely_finished_at(T0 + 60));
    assert!(s.is_truely_finished_at(T0 + 61));
}

#[test]
fn pause_keeps_the_seconds_left() {
    let mut s = State::new_at(600, T0);
    s.pause_at(T0 + 100);
    assert!(s.paused);
    assert_eq!(s.paused_seconds, 500);
    // a paused timer does not run out
    assert!(!s.need_to_stop_at(T0 + 10_000));
    assert!(!s.is_truely_finished_at(T0 + 10_000));
}

#[test]
fn second_pause_changes_nothing() {
    let mut s = State::new_at(600, T0);
    s.pause_at(T0 + 100);
    let once = s;
    s.pause_at(T0 + 300);
    assert_eq!(s, once);
}

#[test]
fn resume_restarts_from_the_seconds_left() {
    let mut s = State::new_at(600, T0);
    s.pause_at(T0 + 100);
    s.resume_at(T0 + 1000);
    assert!(!s.paused);
    assert_eq!(s.finish_at, T0 + 1500);
    assert_eq!(s.started_at, T0);
    assert_eq!(s.duration, 600);
    assert!(!s.need_to_stop_at(T0 + 1500));
    assert!(s.need_to_stop_at(T0 + 1501));
}

#[test]
fn resume_of_a_running_timer_changes_nothing() {
    let mut s = State::new_at(600, T0);
    let before = s;
    s.resume_at(T0 + 5);
    assert_eq!(s, before);
}

#[test]
fn stop_is_final() {
    let mut s = State::new_at(600, T0);
    s.stop();
    assert!(s.is_stopped());
    assert!(s.need_to_stop_at(T0));
    assert!(!s.is_truely_finished_at(T0 + 10_000));
    s.pause_at(T0 + 1);
    s.resume_at(T0 + 2);
    assert!(s.stopped);
    assert!(s.need_to_stop_at(T0 + 2));
}

#[test]
fn progress_shows_each_kind_of_timer() {
    let s = State::new_at(600, T0);
    assert_eq!(s.progress_at_time(T0 + 10), Progress::Running { finish_at: T0 + 600, remaining_seconds: 590 });
    let mut p = s;
    p.pause_at(T0 + 20);
    assert_eq!(p.progress_at_time(T0 + 5000), Progress::Paused { paused_seconds: 580 });
    let mut q = s;
    q.stop();
    assert_eq!(q.progress_at_time(T0), Progress::Stopped);
}

#[test]
fn status_lines_with_given_texts() {
    let s = State::new_at(600, T0);
    let lines = s.status_lines_with("START", "END", T0 + 10);
    assert_eq!(lines, vec!["started_at: START".to_string(), "finish_at: END, remaining seconds: 590".to_string()]);
    let mut p = s;
    p.pause_at(T0 + 700);
    let lines = p.status_lines_with("START", "END", T0 + 800);
    assert_eq!(lines, vec!["started_at: START".to_string(), "paused! paused_seconds: -100".to_string()]);
    let mut q = s;
    q.stop();
    let lines = q.status_lines_with("START", "END", T0);
    assert_eq!(lines, vec!["started_at: START".to_string(), "stopped!".to_string()]);
}

#[test]
fn new_reads_the_clock() {
    let s = State::new(1500).expect("a short timer starts");
    assert_eq!(s.finish_at - s.started_at, 1500);
    assert_eq!(s.duration, 1500);
    assert!(!s.need_to_stop());
}

#[test]
fn new_refuses_an_end_beyond_chrono() {
    assert!(State::new(u64::MAX).is_none());
    assert!(State::new((MAX_TIMESTAMP - MIN_TIMESTAMP) as u64 + 1).is_none());
}

#[test]
fn resume_with_negative_seconds_left_is_refused() {
    let mut s = State::new_at(10, T0);
    s.pause_at(T0 + 20);
    assert_eq!(s.paused_seconds, -10);
    let before = s;
    assert!(!s.resume());
    assert_eq!(s, before);
}

#[test]
fn pause_and_resume_with_the_clock() {
    let mut s = State::new(3600).unwrap();
    s.pause();
    assert!(s.paused);
    assert!(s.paused_seconds <= 3600 && s.paused_seconds >= 3590);
    assert!(s.resume());
    assert!(!s.paused);
    assert!(!s.is_truely_finished());
}

#[test]
fn start_boundaries() {
    let s = State::new_at(0, MAX_TIMESTAMP);
    assert_eq!(s.finish_at, MAX_TIMESTAMP);
    let s = State::new_at(1, MIN_TIMESTAMP);
    assert_eq!(s.finish_at, MIN_TIMESTAMP + 1);
}
