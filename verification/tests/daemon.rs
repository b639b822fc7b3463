use ptimer::command::start::{State as FirstState, TimerStatus};
use ptimer::grpc::{handle, handle_at, monitor_step, monitor_step_at, MonitorAction, TimerRequest};
use ptimer::state::State;

const T0: i64 = 1_700_000_000;

#[test]
fn watcher_keeps_waiting_while_the_timer_runs() {
    let s = State::new_at(60, T0);
    assert_eq!(monitor_step_at(&s, T0 + 60), MonitorAction::KeepWaiting);
}

#[test]
fn watcher_records_a_finished_timer() {
    let s = State::new_at(60, T0);
    assert_eq!(
        monitor_step_at(&s, T0 + 61),
        MonitorAction::RecordAndShutdown { started_at: T0, duration: 60 }
    );
}

#[test]
fn watcher_does_not_record_a_stopped_timer() {
    let mut s = State::new_at(60, T0);
    s.stop();
    assert_eq!(monitor_step_at(&s, T0 + 1), MonitorAction::Shutdown);
    assert_eq!(monitor_step_at(&s, T0 + 1000), MonitorAction::Shutdown);
}

#[test]
fn watcher_waits_on_a_paused_timer() {
    let mut s = State::new_at(60, T0);
    s.pause_at(T0 + 10);
    assert_eq!(monitor_step_at(&s, T0 + 1000), MonitorAction::KeepWaiting);
}

#[test]
fn requests_change_the_timer_and_reply_with_it() {
    let mut s = State::new_at(600, T0);
    let r = handle_at(&mut s, TimerRequest::Status, T0 + 5);
    assert_eq!(r, State::new_at(600, T0));
    let r = handle_at(&mut s, TimerRequest::Pause, T0 + 100);
    assert!(r.paused);
    assert_eq!(r.paused_seconds, 500);
    assert_eq!(r, s);
    let r = handle_at(&mut s, TimerRequest::Resume, T0 + 200);
    assert!(!r.paused);
    assert_eq!(r.finish_at, T0 + 700);
    let r = handle_at(&mut s, TimerRequest::Stop, T0 + 300);
    assert!(r.stopped);
    assert_eq!(r, s);
}

#[test]
fn requests_with_the_clock() {
    let mut s = State::new(600).unwrap();
    let r = handle(&mut s, TimerRequest::Stop).unwrap();
    assert!(r.stopped);
    assert_eq!(monitor_step(&s), MonitorAction::Shutdown);
}

#[test]
fn resume_request_that_cannot_be_computed_is_refused() {
    let mut s = State::new_at(10, T0);
    s.pause_at(T0 + 50);
    let before = s;
    assert_eq!(handle(&mut s, TimerRequest::Resume), None);
    assert_eq!(s, before);
}

#[test]
fn first_daemon_reports_the_seconds_left() {
    let s = FirstState::new_at(600, T0);
    assert_eq!(s.timer_status_at(T0 + 10), TimerStatus { started_at: T0, seconds_remaining: 590, paused: false });
    assert!(!s.need_to_stop_at(T0 + 600));
    assert!(s.need_to_stop_at(T0 + 601));
}

#[test]
fn first_daemon_pause_resume_stop() {
    let mut s = FirstState::new_at(600, T0);
    s.pause_at(T0 + 100);
    assert_eq!(s.timer_status_at(T0 + 9999), TimerStatus { started_at: T0, seconds_remaining: 500, paused: true });
    assert!(!s.need_to_stop_at(T0 + 9999));
    s.resume_at(T0 + 1000);
    assert_eq!(s.timer_status_at(T0 + 1000), TimerStatus { started_at: T0, seconds_remaining: 500, paused: false });
    s.stop();
    assert!(s.need_to_stop_at(T0));
}

#[test]
fn first_daemon_with_the_clock() {
    let mut s = FirstState::new(60).unwrap();
    assert!(!s.need_to_stop());
    let st = s.timer_status();
    assert!(st.seconds_remaining <= 60 && st.seconds_remaining >= 50);
    s.pause();
    assert!(s.timer_status().paused);
    assert!(s.resume());
    assert!(!s.timer_status().paused);
}
