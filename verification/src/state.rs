//! The timer's state, as the daemon holds it and as the status replies
//! carry it, and the operations that the daemon applies to it.
//!
//! Every operation that reads the clock comes in two forms: `..._at(now)`,
//! which takes the current timestamp and has an exact contract, and the
//! form without the suffix, which reads the clock and then does the same.

use vstd::prelude::*;

use crate::clock::{now_timestamp, valid_timestamp};
use crate::text::{decimal, i64_text, is_local_text, local_time_text, valid_offset, views};

verus! {

/// A running, paused or stopped timer. Times are Unix timestamps in whole
/// seconds.
#[derive(Clone, Copy, Debug, PartialEq, Eq, Structural)]
pub struct State {
    /// When the timer was started.
    pub started_at: i64,
    /// When the timer runs out, unless it is paused.
    pub finish_at: i64,
    /// The timer was stopped by the user.
    pub stopped: bool,
    /// The timer is paused.
    pub paused: bool,
    /// How many seconds were left when the timer was paused.
    pub paused_seconds: i64,
    /// The length the timer was started with, in seconds.
    pub duration: u64,
}

/// What the status command shows of a timer, besides its start time.
#[derive(Clone, Copy, Debug, PartialEq, Eq, Structural)]
pub enum Progress {
    /// The timer was stopped.
    Stopped,
    /// The timer is paused with this many seconds left.
    Paused { paused_seconds: i64 },
    /// The timer runs and ends at `finish_at`, `remaining_seconds` from now.
    Running { finish_at: i64, remaining_seconds: i64 },
}

impl State {
    /// The timer's start and end are times that chrono can represent.
    pub open spec fn wf(self) -> bool {
        valid_timestamp(self.started_at as int) && valid_timestamp(self.finish_at as int)
    }

    /// A fresh timer of `interval` seconds started at `now`.
    pub open spec fn fresh(interval: u64, now: int) -> State {
        State {
            started_at: now as i64,
            finish_at: (now + interval) as i64,
            stopped: false,
            paused: false,
            paused_seconds: 0,
            duration: interval,
        }
    }

    /// A timer of `interval` seconds can be started at `now`: its end is a
    /// time that chrono can represent.
    pub open spec fn can_start(interval: u64, now: int) -> bool {
        valid_timestamp(now) && valid_timestamp(now + interval)
    }

    /// The daemon must shut the timer down at `now`: it was stopped, or it
    /// runs and its end has passed.
    pub open spec fn must_stop(self, now: int) -> bool {
        self.stopped || (now > self.finish_at && !self.paused)
    }

    /// The timer ran out on its own at `now`, without being stopped.
    pub open spec fn finished_by_itself(self, now: int) -> bool {
        !self.stopped && !self.paused && now > self.finish_at
    }

    /// The seconds left until the end can be counted at `now`.
    pub open spec fn can_pause(self, now: int) -> bool {
        self.paused || (i64::MIN <= self.finish_at - now <= i64::MAX)
    }

    /// The timer after a pause at `now`: a paused timer stays as it is; a
    /// running one keeps the seconds it has left.
    pub open spec fn paused_at(self, now: int) -> State {
        if self.paused {
            self
        } else {
            State { paused: true, paused_seconds: (self.finish_at - now) as i64, ..self }
        }
    }

    /// The new end of a resumed timer can be computed at `now`: the seconds
    /// left are not negative and the end is a time chrono can represent.
    pub open spec fn can_resume(self, now: int) -> bool {
        !self.paused || (self.paused_seconds >= 0 && valid_timestamp(now + self.paused_seconds))
    }

    /// The timer after a resume at `now`: a running timer stays as it is; a
    /// paused one runs again and ends after the seconds it had left.
    pub open spec fn resumed_at(self, now: int) -> State {
        if !self.paused {
            self
        } else {
            State { paused: false, finish_at: (now + self.paused_seconds) as i64, ..self }
        }
    }

    /// The timer after a stop.
    pub open spec fn stopped_now(self) -> State {
        State { stopped: true, ..self }
    }

    /// The seconds left at `now`.
    pub open spec fn seconds_left(self, now: int) -> int {
        if self.paused {
            self.paused_seconds as int
        } else {
            self.finish_at - now
        }
    }

    /// What the status command shows of the timer at `now`.
    pub open spec fn progress_at(self, now: int) -> Progress {
        if self.stopped {
            Progress::Stopped
        } else if self.paused {
            Progress::Paused { paused_seconds: self.paused_seconds }
        } else {
            Progress::Running {
                finish_at: self.finish_at,
                remaining_seconds: (self.finish_at - now) as i64,
            }
        }
    }

    /// Whether the timer's start and end are times chrono can represent.
    pub fn is_well_formed(&self) -> (r: bool)
        ensures
            r == self.wf(),
    {
        crate::clock::is_valid_timestamp(self.started_at) && crate::clock::is_valid_timestamp(self.finish_at)
    }

    /// Starts a timer of `interval` seconds at `now`.
    pub fn new_at(interval: u64, now: i64) -> (s: State)
        requires
            State::can_start(interval, now as int),
        ensures
            s == State::fresh(interval, now as int),
    {
        State {
            started_at: now,
            finish_at: now + interval as i64,
            stopped: false,
            paused: false,
            paused_seconds: 0,
            duration: interval,
        }
    }

    /// Starts a timer of `interval` seconds now. `None` where its end would
    /// lie beyond what chrono can represent.
    pub fn new(interval: u64) -> (s: Option<State>)
        ensures
            exists|now: int|
                #[trigger] valid_timestamp(now) && now >= 0 && s == (if State::can_start(interval, now) {
                    Some(State::fresh(interval, now))
                } else {
                    None
                }),
    {
        let now = now_timestamp();
        if interval <= (crate::clock::MAX_TIMESTAMP - now) as u64 {
            let st = State::new_at(interval, now);
            Some(st)
        } else {
            assert(valid_timestamp(now as int));
            None
        }
    }

    /// Whether the daemon must shut the timer down at `now`.
    pub fn need_to_stop_at(&self, now: i64) -> (r: bool)
        ensures
            r == self.must_stop(now as int),
    {
        self.stopped || (now > self.finish_at && !self.paused)
    }

    /// Whether the daemon must shut the timer down now.
    pub fn need_to_stop(&self) -> (r: bool)
        ensures
            exists|now: int| #[trigger] valid_timestamp(now) && r == self.must_stop(now),
    {
        let now = now_timestamp();
        assert(valid_timestamp(now as int));
        self.need_to_stop_at(now)
    }

    /// Whether the timer was stopped by the user.
    pub fn is_stopped(&self) -> (r: bool)
        ensures
            r == self.stopped,
    {
        self.stopped
    }

    /// Whether the timer ran out on its own at `now`.
    pub fn is_truely_finished_at(&self, now: i64) -> (r: bool)
        ensures
            r == self.finished_by_itself(now as int),
    {
        !self.stopped && !self.paused && now > self.finish_at
    }

    /// Whether the timer has run out on its own by now.
    pub fn is_truely_finished(&self) -> (r: bool)
        ensures
            exists|now: int| #[trigger] valid_timestamp(now) && r == self.finished_by_itself(now),
    {
        let now = now_timestamp();
        assert(valid_timestamp(now as int));
        self.is_truely_finished_at(now)
    }

    /// Pauses the timer at `now`.
    pub fn pause_at(&mut self, now: i64)
        requires
            old(self).can_pause(now as int),
        ensures
            *final(self) == old(self).paused_at(now as int),
    {
        if self.paused {
            return;
        }
        self.paused = true;
        self.paused_seconds = self.finish_at - now;
    }

    /// Pauses the timer now.
    pub fn pause(&mut self)
        requires
            old(self).paused || valid_timestamp(old(self).finish_at as int),
        ensures
            exists|now: int|
                #[trigger] valid_timestamp(now) && *final(self) == old(self).paused_at(now),
    {
        let now = now_timestamp();
        assert(valid_timestamp(now as int));
        self.pause_at(now);
    }

    /// Resumes the timer at `now`.
    pub fn resume_at(&mut self, now: i64)
        requires
            valid_timestamp(now as int),
            old(self).can_resume(now as int),
        ensures
            *final(self) == old(self).resumed_at(now as int),
    {
        if !self.paused {
            return;
        }
        self.paused = false;
        self.finish_at = now + self.paused_seconds;
    }

    /// Resumes the timer now. Returns `false`, and leaves the timer as it
    /// is, where the new end cannot be computed: the seconds left are
    /// negative, or the end lies beyond what chrono can represent.
    pub fn resume(&mut self) -> (ok: bool)
        ensures
            exists|now: int|
                #[trigger] valid_timestamp(now) && (ok <==> old(self).can_resume(now))
                    && *final(self) == (if ok {
                    old(self).resumed_at(now)
                } else {
                    *old(self)
                }),
    {
        let now = now_timestamp();
        assert(valid_timestamp(now as int));
        if self.paused && (self.paused_seconds < 0
            || self.paused_seconds > crate::clock::MAX_TIMESTAMP - now) {
            return false;
        }
        self.resume_at(now);
        true
    }

    /// Stops the timer.
    pub fn stop(&mut self)
        ensures
            *final(self) == old(self).stopped_now(),
    {
        self.stopped = true;
    }

    /// What the status command shows of the timer at `now`.
    pub fn progress_at_time(&self, now: i64) -> (p: Progress)
        requires
            self.stopped || self.paused || i64::MIN <= self.finish_at - now <= i64::MAX,
        ensures
            p == self.progress_at(now as int),
    {
        if self.stopped {
            Progress::Stopped
        } else if self.paused {
            Progress::Paused { paused_seconds: self.paused_seconds }
        } else {
            Progress::Running { finish_at: self.finish_at, remaining_seconds: self.finish_at - now }
        }
    }
}

/// The lines of the status command for the timer `s` at `now`, whose
/// start reads `started` and whose end reads `finish` in the local time
/// zone.
pub open spec fn status_lines(s: State, started: Seq<char>, finish: Seq<char>, now: int) -> Seq<
    Seq<char>,
> {
    let first = "started_at: "@ + started;
    match s.progress_at(now) {
        Progress::Stopped => seq![first, "stopped!"@],
        Progress::Paused { paused_seconds } => seq![
            first,
            "paused! paused_seconds: "@ + decimal(paused_seconds as int),
        ],
        Progress::Running { remaining_seconds, .. } => seq![
            first,
            "finish_at: "@ + finish + ", remaining seconds: "@ + decimal(remaining_seconds as int),
        ],
    }
}

impl State {
    /// The status command's lines at `now`, given the texts of the start
    /// and of the end.
    pub fn status_lines_with(&self, started: &str, finish: &str, now: i64) -> (r: Vec<String>)
        requires
            self.stopped || self.paused || i64::MIN <= self.finish_at - now <= i64::MAX,
        ensures
            views(r@) == status_lines(*self, started@, finish@, now as int),
    {
        let first = String::from_str("started_at: ").concat(started);
        let second = match self.progress_at_time(now) {
            Progress::Stopped => String::from_str("stopped!"),
            Progress::Paused { paused_seconds } => {
                let n = i64_text(paused_seconds);
                String::from_str("paused! paused_seconds: ").concat(n.as_str())
            },
            Progress::Running { remaining_seconds, .. } => {
                let n = i64_text(remaining_seconds);
                String::from_str("finish_at: ").concat(finish).concat(", remaining seconds: ").concat(
                    n.as_str(),
                )
            },
        };
        let mut r: Vec<String> = Vec::new();
        r.push(first);
        r.push(second);
        assert(views(r@) =~= status_lines(*self, started@, finish@, now as int));
        r
    }

    /// The lines that the status command prints for the timer now, with
    /// the times in the local time zone.
    pub fn pretty_print(&self) -> (r: Vec<String>)
        requires
            self.wf(),
        ensures
            exists|started: Seq<char>, finish: Seq<char>, now: int|
                valid_timestamp(now) && is_local_text(started, self.started_at) && (self.stopped
                    || self.paused || is_local_text(finish, self.finish_at))
                    && #[trigger] status_lines(*self, started, finish, now) == views(r@),
    {
        let now = now_timestamp();
        let (started, o1) = local_time_text(self.started_at);
        assert(valid_offset(o1 as int));
        let finish = if self.stopped || self.paused {
            String::new()
        } else {
            let (text, o2) = local_time_text(self.finish_at);
            assert(valid_offset(o2 as int));
            text
        };
        let r = self.status_lines_with(started.as_str(), finish.as_str(), now);
        assert(status_lines(*self, started@, finish@, now as int) == views(r@));
        r
    }
}

/// A timer that is paused at one time and resumed at another has, right
/// after the resume, exactly the seconds left that it had when it was
/// paused; its start, its length and whether it was stopped do not change.
pub proof fn lemma_pause_resume_keeps_time_left(s: State, t1: int, t2: int)
    requires
        !s.paused,
        s.can_pause(t1),
        s.paused_at(t1).can_resume(t2),
    ensures
        s.paused_at(t1).resumed_at(t2).seconds_left(t2) == s.seconds_left(t1),
        !s.paused_at(t1).resumed_at(t2).paused,
        s.paused_at(t1).resumed_at(t2).started_at == s.started_at,
        s.paused_at(t1).resumed_at(t2).duration == s.duration,
        s.paused_at(t1).resumed_at(t2).stopped == s.stopped,
{
}

/// While a timer is paused its time left does not change, and it does not
/// run out unless it is stopped.
pub proof fn lemma_paused_time_stands_still(s: State, t1: int, t2: int)
    requires
        s.paused,
    ensures
        s.seconds_left(t1) == s.seconds_left(t2),
        s.must_stop(t2) == s.stopped,
        !s.finished_by_itself(t2),
{
}

/// Pausing twice is pausing once, and resuming twice is resuming once.
pub proof fn lemma_pause_and_resume_are_idempotent(s: State, t1: int, t2: int)
    ensures
        s.paused_at(t1).paused_at(t2) == s.paused_at(t1),
        s.resumed_at(t1).resumed_at(t2) == s.resumed_at(t1),
{
}

/// Resuming a running timer and pausing a paused one change nothing.
pub proof fn lemma_redundant_requests_change_nothing(s: State, t: int)
    ensures
        !s.paused ==> s.resumed_at(t) == s,
        s.paused ==> s.paused_at(t) == s,
{
}

/// A stop is final: a stopped timer must be shut down at every time, and
/// pausing, resuming or stopping it again keeps it stopped.
pub proof fn lemma_stop_is_final(s: State, t1: int, t2: int)
    ensures
        s.stopped_now().must_stop(t1),
        s.stopped_now().paused_at(t1).stopped,
        s.stopped_now().resumed_at(t1).stopped,
        s.stopped_now().stopped_now() == s.stopped_now(),
        s.stopped ==> s.must_stop(t2) && !s.finished_by_itself(t2),
{
}

/// A fresh timer of `interval` seconds started at `t0` runs out exactly
/// after `t0 + interval`, and has `t0 + interval - t` seconds left at `t`.
pub proof fn lemma_fresh_timer_runs_out(interval: u64, t0: int, t: int)
    requires
        State::can_start(interval, t0),
    ensures
        State::fresh(interval, t0).must_stop(t) <==> t > t0 + interval,
        State::fresh(interval, t0).finished_by_itself(t) <==> t > t0 + interval,
        State::fresh(interval, t0).seconds_left(t) == t0 + interval - t,
        State::fresh(interval, t0).finish_at - State::fresh(interval, t0).started_at == interval,
{
}

/// Once the daemon must shut a timer down, it must do so at every later
/// time as well, as long as the timer is not changed.
pub proof fn lemma_must_stop_stays(s: State, t1: int, t2: int)
    requires
        t1 <= t2,
        s.must_stop(t1),
    ensures
        s.must_stop(t2),
{
}

/// Pausing, resuming and stopping never change when a timer was started or
/// the length it was started with.
pub proof fn lemma_start_and_length_are_kept(s: State, t: int)
    ensures
        s.paused_at(t).started_at == s.started_at && s.paused_at(t).duration == s.duration,
        s.resumed_at(t).started_at == s.started_at && s.resumed_at(t).duration == s.duration,
        s.stopped_now().started_at == s.started_at && s.stopped_now().duration == s.duration,
{
}

/// A timer that ran out on its own must be shut down, and was not stopped;
/// the status of a timer reports the seconds it has left.
pub proof fn lemma_finished_and_reported(s: State, t: int)
    requires
        s.stopped || s.paused || i64::MIN <= s.finish_at - t <= i64::MAX,
    ensures
        s.finished_by_itself(t) ==> s.must_stop(t) && !s.stopped,
        s.must_stop(t) ==> s.stopped || s.finished_by_itself(t),
        s.progress_at(t) matches Progress::Paused { paused_seconds } ==> paused_seconds == s.seconds_left(t),
        s.progress_at(t) matches Progress::Running { remaining_seconds, .. } ==> remaining_seconds == s.seconds_left(t),
{
}

/// The status of a running timer counts the seconds left from the time at
/// which it is taken: taken at `t`, its second line shows the end and
/// `finish_at - t` seconds; taken later, it shows as many seconds fewer as
/// time has passed, down to zero at the end.
pub proof fn lemma_status_counts_down(
    s: State,
    started: Seq<char>,
    finish: Seq<char>,
    t1: int,
    t2: int,
)
    requires
        s.wf(),
        !s.stopped,
        !s.paused,
        valid_timestamp(t1),
        valid_timestamp(t2),
    ensures
        status_lines(s, started, finish, t1).len() == 2,
        status_lines(s, started, finish, t1)[0] == "started_at: "@ + started,
        status_lines(s, started, finish, t1)[1] == "finish_at: "@ + finish + ", remaining seconds: "@
            + decimal(s.finish_at - t1),
        s.progress_at(t2) matches Progress::Running { remaining_seconds: r2, .. } && s.progress_at(
            t1,
        ) matches Progress::Running { remaining_seconds: r1, .. } && r2 == r1 - (t2 - t1),
        s.progress_at(s.finish_at as int) matches Progress::Running { remaining_seconds: r, .. } && r
            == 0,
{
}

/// A pause at `t` keeps exactly the seconds from `t` to the end, and a
/// resume at a later `t2` puts the end that many seconds after `t2`.
pub proof fn lemma_pause_and_resume_at_the_time_of_the_request(s: State, t: int, t2: int)
    requires
        s.wf(),
        !s.paused,
        valid_timestamp(t),
        valid_timestamp(t2),
        valid_timestamp(t2 + s.finish_at - t),
        s.finish_at >= t,
    ensures
        s.paused_at(t).paused_seconds == s.finish_at - t,
        s.paused_at(t).can_resume(t2),
        s.paused_at(t).resumed_at(t2).finish_at == t2 + (s.finish_at - t),
        s.paused_at(t).resumed_at(t2).finish_at - s.finish_at == t2 - t,
{
}

} // verus!
