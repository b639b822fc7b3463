//! A timer daemon's state that keeps its times to itself and answers
//! status requests with a [`TimerStatus`], the seconds left being counted
//! at the time of the request.

use vstd::prelude::*;

use crate::clock::{now_timestamp, valid_timestamp, MAX_TIMESTAMP};
use crate::grpc::TimerRequest;

verus! {

/// The reply to a status request.
#[derive(Clone, Copy, Debug, PartialEq, Eq, Structural)]
pub struct TimerStatus {
    pub started_at: i64,
    pub seconds_remaining: i64,
    pub paused: bool,
}

/// The daemon's timer. Times are Unix timestamps in whole seconds.
#[derive(Debug)]
pub struct State {
    started_at: i64,
    finished_at: i64,
    stopped: bool,
    paused: bool,
    paused_seconds: i64,
}

/// The contents of a [`State`].
pub struct TimerView {
    pub started_at: int,
    pub finished_at: int,
    pub stopped: bool,
    pub paused: bool,
    pub paused_seconds: int,
}

impl View for State {
    type V = TimerView;

    closed spec fn view(&self) -> TimerView {
        TimerView {
            started_at: self.started_at as int,
            finished_at: self.finished_at as int,
            stopped: self.stopped,
            paused: self.paused,
            paused_seconds: self.paused_seconds as int,
        }
    }
}

impl TimerView {
    /// Every timer's times are in chrono's range and fit an `i64`.
    pub open spec fn wf(self) -> bool {
        &&& valid_timestamp(self.started_at)
        &&& valid_timestamp(self.finished_at)
        &&& i64::MIN <= self.paused_seconds <= i64::MAX
    }

    /// A fresh timer of `interval` seconds started at `now`.
    pub open spec fn fresh(interval: u64, now: int) -> TimerView {
        TimerView {
            started_at: now,
            finished_at: now + interval,
            stopped: false,
            paused: false,
            paused_seconds: 0,
        }
    }

    /// The daemon must shut the timer down at `now`.
    pub open spec fn must_stop(self, now: int) -> bool {
        self.stopped || (now > self.finished_at && !self.paused)
    }

    /// The timer after a pause at `now`.
    pub open spec fn paused_at(self, now: int) -> TimerView {
        if self.paused {
            self
        } else {
            TimerView { paused: true, paused_seconds: self.finished_at - now, ..self }
        }
    }

    /// The new end of a resumed timer can be computed at `now`.
    pub open spec fn can_resume(self, now: int) -> bool {
        !self.paused || (self.paused_seconds >= 0 && valid_timestamp(now + self.paused_seconds))
    }

    /// The timer after a resume at `now`.
    pub open spec fn resumed_at(self, now: int) -> TimerView {
        if !self.paused {
            self
        } else {
            TimerView { paused: false, finished_at: now + self.paused_seconds, ..self }
        }
    }

    /// The timer after a stop.
    pub open spec fn stopped_now(self) -> TimerView {
        TimerView { stopped: true, ..self }
    }

    /// The status reply at `now`.
    pub open spec fn status_at(self, now: int) -> TimerStatus {
        TimerStatus {
            started_at: self.started_at as i64,
            seconds_remaining: (if self.paused {
                self.paused_seconds
            } else {
                self.finished_at - now
            }) as i64,
            paused: self.paused,
        }
    }
}

impl State {
    /// Starts a timer of `interval` seconds at `now`.
    pub fn new_at(interval: u64, now: i64) -> (s: State)
        requires
            valid_timestamp(now as int),
            valid_timestamp(now + interval),
        ensures
            s@ == TimerView::fresh(interval, now as int),
            s@.wf(),
    {
        State {
            started_at: now,
            finished_at: now + interval as i64,
            stopped: false,
            paused: false,
            paused_seconds: 0,
        }
    }

    /// Starts a timer of `interval` seconds now; `None` where its end would
    /// lie beyond what chrono can represent.
    pub fn new(interval: u64) -> (s: Option<State>)
        ensures
            s matches Some(st) ==> st@.wf(),
            exists|now: int|
                #[trigger] valid_timestamp(now) && now >= 0 && (s is Some <==> valid_timestamp(now + interval))
                    && (s matches Some(st) ==> st@ == TimerView::fresh(interval, now)),
    {
        let now = now_timestamp();
        assert(valid_timestamp(now as int));
        if interval <= (MAX_TIMESTAMP - now) as u64 {
            Some(State::new_at(interval, now))
        } else {
            None
        }
    }

    /// Whether the daemon must shut the timer down at `now`.
    pub fn need_to_stop_at(&self, now: i64) -> (r: bool)
        ensures
            r == self@.must_stop(now as int),
    {
        self.stopped || (now > self.finished_at && !self.paused)
    }

    /// Whether the daemon must shut the timer down now.
    pub fn need_to_stop(&self) -> (r: bool)
        ensures
            exists|now: int| #[trigger] valid_timestamp(now) && r == self@.must_stop(now),
    {
        let now = now_timestamp();
        assert(valid_timestamp(now as int));
        self.need_to_stop_at(now)
    }

    /// Pauses the timer at `now`.
    pub fn pause_at(&mut self, now: i64)
        requires
            old(self)@.wf(),
            valid_timestamp(now as int),
        ensures
            final(self)@ == old(self)@.paused_at(now as int),
            final(self)@.wf(),
    {
        if self.paused {
            return;
        }
        self.paused = true;
        self.paused_seconds = self.finished_at - now;
    }

    /// Pauses the timer now.
    pub fn pause(&mut self)
        requires
            old(self)@.wf(),
        ensures
            final(self)@.wf(),
            exists|now: int|
                #[trigger] valid_timestamp(now) && final(self)@ == old(self)@.paused_at(now),
    {
        let now = now_timestamp();
        assert(valid_timestamp(now as int));
        self.pause_at(now);
    }

    /// Resumes the timer at `now`.
    pub fn resume_at(&mut self, now: i64)
        requires
            old(self)@.wf(),
            valid_timestamp(now as int),
            old(self)@.can_resume(now as int),
        ensures
            final(self)@ == old(self)@.resumed_at(now as int),
            final(self)@.wf(),
    {
        if !self.paused {
            return;
        }
        self.paused = false;
        self.finished_at = now + self.paused_seconds;
    }

    /// Resumes the timer now. Returns `false`, and leaves the timer as it
    /// is, where the new end cannot be computed.
    pub fn resume(&mut self) -> (ok: bool)
        requires
            old(self)@.wf(),
        ensures
            final(self)@.wf(),
            exists|now: int|
                #[trigger] valid_timestamp(now) && (ok <==> old(self)@.can_resume(now))
                    && final(self)@ == (if ok {
                    old(self)@.resumed_at(now)
                } else {
                    old(self)@
                }),
    {
        let now = now_timestamp();
        assert(valid_timestamp(now as int));
        if self.paused && (self.paused_seconds < 0 || self.paused_seconds > MAX_TIMESTAMP - now) {
            return false;
        }
        self.resume_at(now);
        true
    }

    /// The status reply at `now`.
    pub fn timer_status_at(&self, now: i64) -> (st: TimerStatus)
        requires
            self@.wf(),
            valid_timestamp(now as int),
        ensures
            st == self@.status_at(now as int),
    {
        let seconds_remaining = if self.paused {
            self.paused_seconds
        } else {
            self.finished_at - now
        };
        TimerStatus { started_at: self.started_at, seconds_remaining, paused: self.paused }
    }

    /// The status reply now.
    pub fn timer_status(&self) -> (st: TimerStatus)
        requires
            self@.wf(),
        ensures
            exists|now: int| #[trigger] valid_timestamp(now) && st == self@.status_at(now),
    {
        let now = now_timestamp();
        assert(valid_timestamp(now as int));
        self.timer_status_at(now)
    }

    /// Stops the timer.
    pub fn stop(&mut self)
        requires
            old(self)@.wf(),
        ensures
            final(self)@ == old(self)@.stopped_now(),
            final(self)@.wf(),
    {
        self.stopped = true;
    }
}

/// A status request that follows a pause reports the seconds that were
/// left at the pause, whenever it is made; right after a resume it reports
/// them again, and the timer ends that many seconds after the resume.
pub proof fn lemma_status_after_pause(s: TimerView, t1: int, t2: int, t3: int)
    requires
        s.wf(),
        !s.paused,
        s.paused_at(t1).can_resume(t2),
    ensures
        s.paused_at(t1).status_at(t2).seconds_remaining == s.status_at(t1).seconds_remaining,
        s.paused_at(t1).status_at(t2).paused,
        s.paused_at(t1).resumed_at(t2).finished_at - t3 == (s.finished_at - t1) - (t3 - t2),
        s.paused_at(t1).resumed_at(t2).status_at(t2).seconds_remaining
            == s.status_at(t1).seconds_remaining,
        !s.paused_at(t1).resumed_at(t2).paused,
{
}

/// Stopping is final, and a paused timer is never shut down unless it is
/// stopped.
pub proof fn lemma_stop_and_pause(s: TimerView, t: int)
    ensures
        s.stopped_now().must_stop(t),
        s.paused && !s.stopped ==> !s.must_stop(t),
        s.stopped_now().paused_at(t).stopped && s.stopped_now().resumed_at(t).stopped,
{
}

impl TimerView {
    /// The timer after each of `requests`, in order, each at its time.
    pub open spec fn after_all(self, requests: Seq<(TimerRequest, int)>) -> TimerView
        decreases requests.len(),
    {
        if requests.len() == 0 {
            self
        } else {
            let (request, now) = requests.last();
            let before = self.after_all(requests.drop_last());
            match request {
                TimerRequest::Status => before,
                TimerRequest::Pause => before.paused_at(now),
                TimerRequest::Resume => before.resumed_at(now),
                TimerRequest::Stop => before.stopped_now(),
            }
        }
    }
}

/// Once stopped, a timer stays stopped through any sequence of requests,
/// and the daemon must shut it down at every time.
pub proof fn lemma_stopped_stays_stopped(s: TimerView, requests: Seq<(TimerRequest, int)>, t: int)
    requires
        s.stopped,
    ensures
        s.after_all(requests).stopped,
        s.after_all(requests).must_stop(t),
    decreases requests.len(),
{
    if requests.len() > 0 {
        lemma_stopped_stays_stopped(s, requests.drop_last(), t);
    }
}

/// The status reply of a running timer counts the seconds left from the
/// time `t` at which it is asked: `finished_at - t`, one fewer for each
/// second that passes; a paused timer's reply does not change with `t`.
pub proof fn lemma_status_counts_down(s: TimerView, t1: int, t2: int)
    requires
        s.wf(),
        valid_timestamp(t1),
        valid_timestamp(t2),
    ensures
        s.status_at(t1).started_at == s.started_at,
        s.status_at(t1).paused == s.paused,
        !s.paused ==> s.status_at(t1).seconds_remaining == s.finished_at - t1,
        !s.paused ==> s.status_at(t2).seconds_remaining - s.status_at(t1).seconds_remaining == t1
            - t2,
        s.paused ==> s.status_at(t1) == s.status_at(t2),
{
}

} // verus!
