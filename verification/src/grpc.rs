//! What the timer daemon does with the requests it is sent, and the check
//! that its watcher makes every second to decide when the daemon ends.

use vstd::prelude::*;

use crate::clock::{now_timestamp, valid_timestamp, MAX_TIMESTAMP};
use crate::state::State;

verus! {

/// A request to the timer daemon.
#[derive(Clone, Copy, Debug, PartialEq, Eq, Structural)]
pub enum TimerRequest {
    Status,
    Pause,
    Resume,
    Stop,
}

/// What the daemon's watcher does after one look at the timer.
#[derive(Clone, Copy, Debug, PartialEq, Eq, Structural)]
pub enum MonitorAction {
    /// The timer was stopped: shut the daemon down and record nothing.
    Shutdown,
    /// The timer ran out: shut the daemon down and record the finished
    /// timer in the history.
    RecordAndShutdown { started_at: i64, duration: u64 },
    /// Look again after a second.
    KeepWaiting,
}

/// The timer after the daemon handled `request` at `now`.
pub open spec fn applied(s: State, request: TimerRequest, now: int) -> State {
    match request {
        TimerRequest::Status => s,
        TimerRequest::Pause => s.paused_at(now),
        TimerRequest::Resume => s.resumed_at(now),
        TimerRequest::Stop => s.stopped_now(),
    }
}

/// The request can be handled at `now`.
pub open spec fn can_apply(s: State, request: TimerRequest, now: int) -> bool {
    request is Resume ==> s.can_resume(now)
}

/// The watcher's decision for the timer `s` at `now`.
pub open spec fn decision(s: State, now: int) -> MonitorAction {
    if s.stopped {
        MonitorAction::Shutdown
    } else if s.finished_by_itself(now) {
        MonitorAction::RecordAndShutdown { started_at: s.started_at, duration: s.duration }
    } else {
        MonitorAction::KeepWaiting
    }
}

/// Handles `request` at `now`: changes the timer and returns it as the
/// reply.
pub fn handle_at(state: &mut State, request: TimerRequest, now: i64) -> (reply: State)
    requires
        old(state).wf(),
        valid_timestamp(now as int),
        can_apply(*old(state), request, now as int),
    ensures
        *final(state) == applied(*old(state), request, now as int),
        final(state).wf(),
        reply == *final(state),
{
    match request {
        TimerRequest::Status => {},
        TimerRequest::Pause => state.pause_at(now),
        TimerRequest::Resume => state.resume_at(now),
        TimerRequest::Stop => state.stop(),
    }
    *state
}

/// Handles `request` now. `None`, with the timer unchanged, where a resume
/// cannot compute the timer's new end.
pub fn handle(state: &mut State, request: TimerRequest) -> (reply: Option<State>)
    requires
        old(state).wf(),
    ensures
        final(state).wf(),
        reply matches Some(r) ==> r == *final(state),
        exists|now: int|
            #[trigger] valid_timestamp(now) && (reply is Some <==> can_apply(*old(state), request, now))
                && *final(state) == (if reply is Some {
                applied(*old(state), request, now)
            } else {
                *old(state)
            }),
{
    let now = now_timestamp();
    assert(valid_timestamp(now as int));
    let blocked = match request {
        TimerRequest::Resume => state.paused && (state.paused_seconds < 0
            || state.paused_seconds > MAX_TIMESTAMP - now),
        _ => false,
    };
    if blocked {
        return None;
    }
    Some(handle_at(state, request, now))
}

/// The watcher's decision for the timer at `now`.
pub fn monitor_step_at(state: &State, now: i64) -> (action: MonitorAction)
    ensures
        action == decision(*state, now as int),
{
    if state.is_stopped() {
        MonitorAction::Shutdown
    } else if state.is_truely_finished_at(now) {
        MonitorAction::RecordAndShutdown { started_at: state.started_at, duration: state.duration }
    } else {
        MonitorAction::KeepWaiting
    }
}

/// The watcher's decision for the timer now.
pub fn monitor_step(state: &State) -> (action: MonitorAction)
    ensures
        exists|now: int| #[trigger] valid_timestamp(now) && action == decision(*state, now),
{
    let now = now_timestamp();
    assert(valid_timestamp(now as int));
    monitor_step_at(state, now)
}

/// The watcher shuts the daemon down exactly when the timer must stop, and
/// records a history entry exactly when the timer ran out without being
/// stopped; the entry carries the timer's start and length.
pub proof fn lemma_watcher_records_only_finished_timers(s: State, now: int)
    ensures
        decision(s, now) !is KeepWaiting <==> s.must_stop(now),
        decision(s, now) is RecordAndShutdown <==> s.finished_by_itself(now),
        decision(s, now) matches MonitorAction::RecordAndShutdown { started_at, duration }
            ==> started_at == s.started_at && duration == s.duration,
        s.stopped ==> decision(s, now) is Shutdown,
{
}

/// A status request changes nothing; a stopped timer is never recorded,
/// whatever is asked of it afterwards.
pub proof fn lemma_requests_on_stopped_timer(s: State, request: TimerRequest, t1: int, t2: int)
    ensures
        applied(s, TimerRequest::Status, t1) == s,
        applied(s, TimerRequest::Stop, t1).stopped,
        s.stopped ==> applied(s, request, t1).stopped && decision(applied(s, request, t1), t2) is Shutdown,
{
}

/// A timer started with `interval` seconds and never touched is recorded
/// by the watcher, with its start and length, at the first check after its
/// end, and left running before.
pub proof fn lemma_untouched_timer_is_recorded(interval: u64, t0: int, t: int)
    requires
        State::can_start(interval, t0),
    ensures
        t > t0 + interval ==> decision(State::fresh(interval, t0), t)
            == (MonitorAction::RecordAndShutdown { started_at: t0 as i64, duration: interval }),
        t <= t0 + interval ==> decision(State::fresh(interval, t0), t) == MonitorAction::KeepWaiting,
{
}

/// The timer after the daemon handled each of `requests`, in order; each
/// request comes with the time at which it is handled.
pub open spec fn applied_all(s: State, requests: Seq<(TimerRequest, int)>) -> State
    decreases requests.len(),
{
    if requests.len() == 0 {
        s
    } else {
        let (request, now) = requests.last();
        applied(applied_all(s, requests.drop_last()), request, now)
    }
}

/// Once stopped, a timer stays stopped through any sequence of requests:
/// afterwards it must be shut down at every time, and the watcher shuts the
/// daemon down without recording it.
pub proof fn lemma_stopped_stays_stopped(s: State, requests: Seq<(TimerRequest, int)>, t: int)
    requires
        s.stopped,
    ensures
        applied_all(s, requests).stopped,
        applied_all(s, requests).must_stop(t),
        decision(applied_all(s, requests), t) is Shutdown,
    decreases requests.len(),
{
    if requests.len() > 0 {
        lemma_stopped_stays_stopped(s, requests.drop_last(), t);
    }
}

/// The daemon applies each request at the time `t` at which it handles it:
/// a pause of a running timer keeps `finish_at - t` seconds, a resume of a
/// paused one puts the end at `t` plus the seconds kept, a stop or a status
/// request changes nothing but the stop flag; and the reply is the timer
/// as it then is.
pub proof fn lemma_requests_apply_at_their_time(s: State, t: int)
    requires
        s.wf(),
        valid_timestamp(t),
    ensures
        !s.paused ==> applied(s, TimerRequest::Pause, t).paused && applied(
            s,
            TimerRequest::Pause,
            t,
        ).paused_seconds == s.finish_at - t && applied(s, TimerRequest::Pause, t).finish_at
            == s.finish_at,
        s.paused && can_apply(s, TimerRequest::Resume, t) ==> !applied(
            s,
            TimerRequest::Resume,
            t,
        ).paused && applied(s, TimerRequest::Resume, t).finish_at == t + s.paused_seconds,
        applied(s, TimerRequest::Stop, t) == (State { stopped: true, ..s }),
        applied(s, TimerRequest::Status, t) == s,
{
}

/// The watcher judges the timer at the time `t` of its look: a running,
/// unstopped timer whose end is before `t` is recorded with its start and
/// length and the daemon ends; one whose end is not before `t` keeps the
/// daemon waiting; and a later look at the same timer never goes back to
/// waiting.
pub proof fn lemma_watcher_judges_at_its_time(s: State, t: int, t2: int)
    requires
        !s.stopped,
        !s.paused,
    ensures
        t > s.finish_at ==> decision(s, t) == (MonitorAction::RecordAndShutdown {
            started_at: s.started_at,
            duration: s.duration,
        }),
        t <= s.finish_at ==> decision(s, t) == MonitorAction::KeepWaiting,
        t <= t2 && decision(s, t) !is KeepWaiting ==> decision(s, t2) == decision(s, t),
{
}

} // verus!
