//! Which finished timers the history command shows: today's, under a
//! heading, unless all are asked for or none finished today.

use vstd::prelude::*;

use crate::db::{entry_line, History};
use crate::clock::valid_timestamp;
use crate::text::{
    is_local_day, is_local_text, local_day, local_day_at, local_safe, local_time_text, today,
    valid_offset, views,
};

verus! {

/// The items of `xs` whose day, at the same index of `days`, is `today`,
/// in their order.
pub open spec fn pick<A>(xs: Seq<A>, days: Seq<i32>, today: i32) -> Seq<A>
    decreases xs.len(),
{
    if xs.len() == 0 {
        Seq::empty()
    } else {
        let rest = pick(xs.drop_last(), days.subrange(0, xs.len() - 1), today);
        if days[xs.len() - 1] == today {
            rest.push(xs.last())
        } else {
            rest
        }
    }
}

/// The heading above today's timers.
pub open spec fn heading() -> Seq<char> {
    "Today's history:"@
}

/// The lines shown for the timers whose lines are `lines` and whose days
/// are `days`: with `show_all`, all of them; otherwise only today's, under
/// the heading, and nothing where no timer finished `today`.
pub open spec fn listing(lines: Seq<Seq<char>>, days: Seq<i32>, today: i32, show_all: bool) -> Seq<
    Seq<char>,
> {
    if show_all {
        lines
    } else if days.contains(today) {
        seq![heading()] + pick(lines, days, today)
    } else {
        Seq::empty()
    }
}

/// The lines of the timers `history`, whose starts read `started` in the
/// local time zone.
pub open spec fn entry_lines(history: Seq<History>, started: Seq<Seq<char>>, print_id: bool) -> Seq<
    Seq<char>,
> {
    Seq::new(history.len(), |i: int| entry_line(history[i], started[i], print_id))
}

/// `started` holds, for each timer of `history`, the text of its start in
/// some time zone.
pub open spec fn local_texts_of(started: Seq<Seq<char>>, history: Seq<History>) -> bool {
    &&& started.len() == history.len()
    &&& forall|i: int| 0 <= i < history.len() ==> #[trigger] is_local_text(started[i], history[i].started_at)
}

/// `days` holds, for each timer of `history`, the day number of its start
/// in some time zone.
pub open spec fn local_days_of(days: Seq<i32>, history: Seq<History>) -> bool {
    &&& days.len() == history.len()
    &&& forall|i: int| 0 <= i < history.len() ==> #[trigger] is_local_day(
        days[i] as int,
        history[i].started_at as int,
    )
}

/// `day` is the local day of some time at or after 1970 that chrono can
/// represent: the day that the clock gave.
pub open spec fn is_clock_day(day: i32) -> bool {
    exists|now: int| #[trigger] valid_timestamp(now) && now >= 0 && is_local_day(day as int, now)
}

/// The lines for `lines` whose days are `days`, as `listing` says.
pub fn listing_with(lines: Vec<String>, days: &Vec<i32>, today: i32, show_all: bool) -> (r: Vec<
    String,
>)
    requires
        lines.len() == days.len(),
    ensures
        views(r@) == listing(views(lines@), days@, today, show_all),
{
    if show_all {
        return lines;
    }
    let n = lines.len();
    let mut picked: Vec<String> = Vec::new();
    let mut any = false;
    let mut i: usize = 0;
    while i < n
        invariant
            n == lines.len() == days.len(),
            0 <= i <= n,
            views(picked@) == pick(views(lines@).subrange(0, i as int), days@.subrange(0, i as int), today),
            any == days@.subrange(0, i as int).contains(today),
        decreases n - i,
    {
        let ghost prev = views(picked@);
        let ghost ls = views(lines@).subrange(0, i + 1);
        assert(ls.drop_last() =~= views(lines@).subrange(0, i as int));
        assert(days@.subrange(0, i + 1).subrange(0, i as int) =~= days@.subrange(0, i as int));
        if days[i] == today {
            picked.push(lines[i].clone());
            any = true;
            assert(views(picked@) =~= prev.push(lines@[i as int]@));
        } else {
            assert(views(picked@) =~= prev);
        }
        let ghost d0 = days@.subrange(0, i as int);
        let ghost d1 = days@.subrange(0, i + 1);
        assert(d1.contains(today) == (d0.contains(today) || days@[i as int] == today)) by {
            if d0.contains(today) {
                let k = choose|k: int| 0 <= k < d0.len() && d0[k] == today;
                assert(d1[k] == today);
            }
            if d1.contains(today) {
                let k = choose|k: int| 0 <= k < d1.len() && d1[k] == today;
                if k < i {
                    assert(d0[k] == today);
                }
            }
            if days@[i as int] == today {
                assert(d1[i as int] == today);
            }
        }
        i = i + 1;
    }
    assert(views(lines@).subrange(0, n as int) =~= views(lines@));
    assert(days@.subrange(0, n as int) =~= days@);
    if any {
        let mut r: Vec<String> = Vec::new();
        r.push(String::from_str("Today's history:"));
        let ghost head = views(r@);
        let ghost tail = views(picked@);
        r.append(&mut picked);
        assert(views(r@) =~= seq![heading()] + tail) by {
            assert(head =~= seq![heading()]);
        }
        r
    } else {
        let r: Vec<String> = Vec::new();
        assert(views(r@) =~= Seq::<Seq<char>>::empty());
        r
    }
}

/// The lines of the timers `history`, each with its start in the local
/// time zone, and with its row id when `print_id` is set.
pub fn history_lines(history: &Vec<History>, print_id: bool) -> (r: Vec<String>)
    requires
        forall|i: int| 0 <= i < history.len() ==> valid_timestamp(#[trigger] history@[i].started_at as int),
    ensures
        r.len() == history.len(),
        exists|started: Seq<Seq<char>>|
            local_texts_of(started, history@) && #[trigger] entry_lines(history@, started, print_id)
                == views(r@),
{
    let n = history.len();
    let mut r: Vec<String> = Vec::new();
    let ghost mut started: Seq<Seq<char>> = Seq::empty();
    let mut i: usize = 0;
    while i < n
        invariant
            n == history.len(),
            0 <= i <= n,
            forall|k: int| 0 <= k < history.len() ==> valid_timestamp(#[trigger] history@[k].started_at as int),
            r.len() == i,
            started.len() == i,
            forall|k: int| 0 <= k < i ==> #[trigger] views(r@)[k] == entry_line(history@[k], started[k], print_id),
            forall|k: int| 0 <= k < i ==> #[trigger] is_local_text(started[k], history@[k].started_at),
        decreases n - i,
    {
        let (text, offset) = local_time_text(history[i].started_at);
        let line = history[i].line_with(text.as_str(), print_id);
        proof {
            assert(valid_offset(offset as int));
            assert(is_local_text(text@, history@[i as int].started_at));
            started = started.push(text@);
        }
        let ghost old_r = r@;
        r.push(line);
        assert forall|k: int| 0 <= k < i + 1 implies #[trigger] views(r@)[k] == entry_line(
            history@[k],
            started[k],
            print_id,
        ) by {
            if k < i {
                assert(r@[k] == old_r[k]);
                assert(views(old_r)[k] == old_r[k]@);
            }
        }
        assert forall|k: int| 0 <= k < i + 1 implies #[trigger] is_local_text(
            started[k],
            history@[k].started_at,
        ) by {}
        i = i + 1;
    }
    assert(entry_lines(history@, started, print_id) =~= views(r@));
    r
}

/// The lines that the history command shows for the finished timers
/// `history`: all of them where `show_all` is set, and otherwise the timers
/// of today under a heading, or nothing where none finished today.
pub fn print_history(history: &Vec<History>, show_all: bool, print_id: bool) -> (r: Vec<String>)
    requires
        forall|i: int| 0 <= i < history.len() ==> local_safe(#[trigger] history@[i].started_at as int),
    ensures
        exists|started: Seq<Seq<char>>, days: Seq<i32>, day: i32|
            local_texts_of(started, history@) && local_days_of(days, history@) && is_clock_day(day)
                && #[trigger] listing(entry_lines(history@, started, print_id), days, day, show_all)
                == views(r@),
{
    let lines = history_lines(history, print_id);
    let ghost started = choose|started: Seq<Seq<char>>|
        local_texts_of(started, history@) && #[trigger] entry_lines(history@, started, print_id)
            == views(lines@);
    let mut days: Vec<i32> = Vec::new();
    let n = history.len();
    let mut i: usize = 0;
    while i < n
        invariant
            n == history.len(),
            0 <= i <= n,
            days.len() == i,
            forall|k: int| 0 <= k < history.len() ==> local_safe(#[trigger] history@[k].started_at as int),
            forall|k: int| 0 <= k < i ==> #[trigger] is_local_day(
                days@[k] as int,
                history@[k].started_at as int,
            ),
        decreases n - i,
    {
        let (d, offset) = local_day(history[i].started_at);
        assert(valid_offset(offset as int));
        days.push(d);
        assert forall|k: int| 0 <= k < i + 1 implies #[trigger] is_local_day(
            days@[k] as int,
            history@[k].started_at as int,
        ) by {}
        i = i + 1;
    }
    let (day, now, offset) = today();
    assert(valid_offset(offset as int));
    assert(valid_timestamp(now as int));
    assert(is_clock_day(day));
    let r = listing_with(lines, &days, day, show_all);
    assert(listing(entry_lines(history@, started, print_id), days@, day, show_all) == views(r@));
    r
}

/// Picking today's items keeps exactly the items whose day is today: each
/// kept item is one of them, each of them is kept, no more items than there
/// were come out, and some come out exactly when some day is today.
pub proof fn lemma_pick_keeps_todays_items<A>(xs: Seq<A>, days: Seq<i32>, today: i32)
    requires
        xs.len() == days.len(),
    ensures
        pick(xs, days, today).len() <= xs.len(),
        forall|j: int| #![trigger pick(xs, days, today)[j]]
            0 <= j < pick(xs, days, today).len() ==> exists|i: int| #![trigger xs[i]]
                0 <= i < xs.len() && days[i] == today && xs[i] == pick(xs, days, today)[j],
        forall|i: int| 0 <= i < xs.len() && days[i] == today ==> pick(xs, days, today).contains(
            #[trigger] xs[i],
        ),
        (pick(xs, days, today).len() > 0) == days.contains(today),
    decreases xs.len(),
{
    let n = xs.len() as int;
    if n > 0 {
        let xs0 = xs.drop_last();
        let d0 = days.subrange(0, n - 1);
        let p0 = pick(xs0, d0, today);
        let p = pick(xs, days, today);
        lemma_pick_keeps_todays_items(xs0, d0, today);
        assert forall|j: int| #![trigger pick(xs, days, today)[j]]
            0 <= j < pick(xs, days, today).len() implies exists|i: int| #![trigger xs[i]]
                0 <= i < xs.len() && days[i] == today && xs[i] == pick(xs, days, today)[j] by {
            if j < p0.len() {
                assert(p[j] == p0[j]);
                let i = choose|i: int| #![trigger xs0[i]] 0 <= i < xs0.len() && d0[i] == today && xs0[i] == p0[j];
                assert(xs[i] == xs0[i]);
                assert(days[i] == d0[i]);
            } else {
                assert(xs[n - 1] == p[j]);
            }
        }
        assert forall|i: int| 0 <= i < xs.len() && days[i] == today implies p.contains(#[trigger] xs[i]) by {
            if i < n - 1 {
                assert(xs0[i] == xs[i]);
                assert(d0[i] == days[i]);
                assert(p0.contains(xs0[i]));
                let k = choose|k: int| 0 <= k < p0.len() && p0[k] == xs0[i];
                assert(p[k] == p0[k]);
            } else {
                assert(p[p.len() - 1] == xs[i]);
            }
        }
        assert(days.contains(today) == (d0.contains(today) || days[n - 1] == today)) by {
            if d0.contains(today) {
                let k = choose|k: int| 0 <= k < d0.len() && d0[k] == today;
                assert(days[k] == today);
            }
            if days.contains(today) {
                let k = choose|k: int| 0 <= k < days.len() && days[k] == today;
                if k < n - 1 {
                    assert(d0[k] == today);
                }
            }
        }
    }
}

/// With `show_all` every line is shown and there is no heading; without
/// it, only today's timers are shown: nothing where no timer finished
/// today, and otherwise the heading and then today's lines, at least one.
pub proof fn lemma_listing_shows(lines: Seq<Seq<char>>, days: Seq<i32>, today: i32, show_all: bool)
    requires
        lines.len() == days.len(),
    ensures
        show_all ==> listing(lines, days, today, show_all) == lines,
        !show_all && !days.contains(today) ==> listing(lines, days, today, show_all).len() == 0,
        !show_all && days.contains(today) ==> {
            &&& listing(lines, days, today, show_all)[0] == heading()
            &&& listing(lines, days, today, show_all).subrange(1, listing(lines, days, today, show_all).len() as int)
                == pick(lines, days, today)
            &&& listing(lines, days, today, show_all).len() >= 2
        },
{
    lemma_pick_keeps_todays_items(lines, days, today);
    if !show_all && days.contains(today) {
        let l = listing(lines, days, today, show_all);
        assert(l.subrange(1, l.len() as int) =~= pick(lines, days, today));
    }
}

/// Dated in one time zone, a timer is today's exactly when its local date
/// is the clock's local date: with the offset `offset`, a timer started at
/// `t` has the day of `now` exactly when `t + offset` and `now + offset`
/// fall in the same day of 86400 seconds; so a timer that started earlier
/// on the clock's local day counts, and one of the local day before does
/// not, whatever the offset.
pub proof fn lemma_today_in_one_time_zone(t: int, now: int, offset: int)
    requires
        valid_offset(offset),
    ensures
        local_day_at(t, offset) == local_day_at(now, offset) <==> (t + offset) / 86400 == (now
            + offset) / 86400,
        (now + offset) % 86400 >= now - t && t <= now ==> local_day_at(t, offset) == local_day_at(
            now,
            offset,
        ),
        t + 86400 <= now - (now + offset) % 86400 ==> local_day_at(t, offset) < local_day_at(
            now,
            offset,
        ),
{
}

} // verus!
