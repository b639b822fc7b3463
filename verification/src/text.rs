//! The texts the program shows: decimal numbers, lengths of time as
//! `humantime` writes them, and times as chrono writes them in the local
//! time zone.

use chrono::{Datelike, TimeZone};
use vstd::prelude::*;

use crate::clock::{valid_timestamp, MAX_TIMESTAMP, MIN_TIMESTAMP};

verus! {

/// The views of a list of texts.
pub open spec fn views(v: Seq<String>) -> Seq<Seq<char>> {
    v.map_values(|s: String| s@)
}

/// The decimal digit for `d`, from 0 to 9.
pub open spec fn digit_char(d: int) -> char {
    if d == 0 {
        '0'
    } else if d == 1 {
        '1'
    } else if d == 2 {
        '2'
    } else if d == 3 {
        '3'
    } else if d == 4 {
        '4'
    } else if d == 5 {
        '5'
    } else if d == 6 {
        '6'
    } else if d == 7 {
        '7'
    } else if d == 8 {
        '8'
    } else {
        '9'
    }
}

/// The decimal digits of `n`, without leading zeros.
pub open spec fn decimal_nat(n: nat) -> Seq<char>
    decreases n,
{
    if n < 10 {
        seq![digit_char(n as int)]
    } else {
        decimal_nat(n / 10).push(digit_char((n % 10) as int))
    }
}

/// How `{}` writes the integer `i`: its decimal digits, after a `-` when
/// it is negative.
pub open spec fn decimal(i: int) -> Seq<char> {
    if i < 0 {
        seq!['-'] + decimal_nat((-i) as nat)
    } else {
        decimal_nat(i as nat)
    }
}

/// Calls `String::push`: appends the character `c`.
#[verifier::external_body]
fn push_char(s: &mut String, c: char)
    ensures
        final(s)@ == old(s)@.push(c),
{
    s.push(c);
}

fn digit(d: u64) -> (c: char)
    requires
        d < 10,
    ensures
        c == digit_char(d as int),
{
    if d == 0 {
        '0'
    } else if d == 1 {
        '1'
    } else if d == 2 {
        '2'
    } else if d == 3 {
        '3'
    } else if d == 4 {
        '4'
    } else if d == 5 {
        '5'
    } else if d == 6 {
        '6'
    } else if d == 7 {
        '7'
    } else if d == 8 {
        '8'
    } else {
        '9'
    }
}

/// Appends the decimal digits of `n` to `s`.
fn write_decimal(s: &mut String, n: u64)
    ensures
        final(s)@ == old(s)@ + decimal_nat(n as nat),
    decreases n,
{
    if n >= 10 {
        write_decimal(s, n / 10);
    }
    push_char(s, digit(n % 10));
    proof {
        if n >= 10 {
            assert(old(s)@ + decimal_nat(n as nat) =~= old(s)@ + decimal_nat((n / 10) as nat)
                + seq![digit_char((n % 10) as int)]);
        } else {
            assert(n % 10 == n);
        }
    }
}

/// The decimal text of `n`, as `n.to_string()` writes it.
pub fn u64_text(n: u64) -> (s: String)
    ensures
        s@ == decimal(n as int),
{
    let mut s = String::new();
    write_decimal(&mut s, n);
    assert(s@ =~= decimal(n as int));
    s
}

/// The decimal text of `n`, as `n.to_string()` writes it.
pub fn i64_text(n: i64) -> (s: String)
    ensures
        s@ == decimal(n as int),
{
    let mut s = String::new();
    if n < 0 {
        push_char(&mut s, '-');
        let magnitude: u64 = (-(n + 1)) as u64 + 1;
        write_decimal(&mut s, magnitude);
    } else {
        write_decimal(&mut s, n as u64);
    }
    assert(s@ =~= decimal(n as int));
    s
}

/// One part of a formatted length: the count, the unit's name, and an `s`
/// after a name that takes a plural and a count above one.
pub open spec fn part_text(count: nat, name: Seq<char>, plural: bool) -> Seq<char> {
    decimal(count as int) + name + (if plural && count > 1 {
        "s"@
    } else {
        ""@
    })
}

/// The parts with a count above zero, in order, separated by one space.
pub open spec fn parts_text(parts: Seq<(nat, Seq<char>, bool)>) -> Seq<char>
    decreases parts.len(),
{
    if parts.len() == 0 {
        Seq::empty()
    } else {
        let before = parts_text(parts.drop_last());
        let (count, name, plural) = parts.last();
        if count == 0 {
            before
        } else if before.len() == 0 {
            part_text(count, name, plural)
        } else {
            before + " "@ + part_text(count, name, plural)
        }
    }
}

/// The text that `humantime::format_duration` writes for `secs` seconds
/// and `nanos` nanoseconds: `0s` for nothing; otherwise the years (of
/// 365.25 days), months (of 30.44 days), days, hours, minutes, seconds,
/// milliseconds, microseconds and nanoseconds that are not zero.
pub open spec fn humantime_text(secs: u64, nanos: u32) -> Seq<char> {
    if secs == 0 && nanos == 0 {
        "0s"@
    } else {
        let ydays = secs % 31_557_600;
        let mdays = ydays % 2_630_016;
        let day_secs = mdays % 86400;
        parts_text(
            seq![
                ((secs / 31_557_600) as nat, "year"@, true),
                ((ydays / 2_630_016) as nat, "month"@, true),
                ((mdays / 86400) as nat, "day"@, true),
                ((day_secs / 3600) as nat, "h"@, false),
                ((day_secs % 3600 / 60) as nat, "m"@, false),
                ((day_secs % 60) as nat, "s"@, false),
                ((nanos / 1_000_000) as nat, "ms"@, false),
                ((nanos / 1000 % 1000) as nat, "us"@, false),
                ((nanos % 1000) as nat, "ns"@, false),
            ],
        )
    }
}

/// Calls `humantime::format_duration` on `Duration::new(secs, nanos)` and
/// writes the result out. The text is `humantime_text`, which follows the
/// `Display` of `FormattedDuration` (without the `mu` feature, so
/// microseconds are `us`); `nanos` below a second keeps `Duration::new`
/// from panicking.
#[verifier::external_body]
pub(crate) fn duration_text(secs: u64, nanos: u32) -> (s: String)
    requires
        nanos < 1_000_000_000,
    ensures
        s@ == humantime_text(secs, nanos),
{
    humantime::format_duration(std::time::Duration::new(secs, nanos)).to_string()
}

/// A timestamp far enough from the ends of chrono's range that its local
/// date and time exist in any time zone (an offset is less than a day).
pub open spec fn local_safe(t: int) -> bool {
    MIN_TIMESTAMP + 86400 <= t <= MAX_TIMESTAMP - 86400
}

/// Whether the local date and time of `t` exist in any time zone.
pub fn is_local_safe(t: i64) -> (r: bool)
    ensures
        r == local_safe(t as int),
{
    MIN_TIMESTAMP + 86400 <= t && t <= MAX_TIMESTAMP - 86400
}

/// The text that chrono's `Display` writes for the timestamp `t` in a
/// time zone whose offset from UTC is `offset` seconds: the local date and
/// time, then the offset.
pub uninterp spec fn local_text(t: i64, offset: i32) -> Seq<char>;

/// A UTC offset that chrono's `FixedOffset` can hold: less than a day.
pub open spec fn valid_offset(offset: int) -> bool {
    -86400 < offset < 86400
}

/// `text` is the text of `t` in some time zone.
pub open spec fn is_local_text(text: Seq<char>, t: i64) -> bool {
    exists|offset: i32| #[trigger] valid_offset(offset as int) && text == local_text(t, offset)
}

/// The day number (counted from January 1 of the year 1 as day 1) of the
/// local date of `t` at the UTC offset `offset`.
pub open spec fn local_day_at(t: int, offset: int) -> int {
    (t + offset) / 86400 + 719163
}

/// `day` is the day number of the local date of `t` in some time zone.
pub open spec fn is_local_day(day: int, t: int) -> bool {
    exists|offset: int| #[trigger] valid_offset(offset) && day == local_day_at(t, offset)
}

/// Writes the timestamp `t` as chrono's `Display` writes the local time:
/// `chrono::Local.timestamp_opt(t, 0).unwrap().to_string()`, and gives the
/// offset from UTC of that local time, `offset().local_minus_utc()`.
///
/// `timestamp_opt` gives a single time for every timestamp in chrono's
/// range, at the offset that the machine's time zone has then (a
/// `FixedOffset`, below a day), and `Display` writes it with
/// `overflowing_naive_local`, which does not panic. The text is
/// `local_text` of `t` at that offset.
#[verifier::external_body]
pub(crate) fn local_time_text(t: i64) -> (r: (String, i32))
    requires
        valid_timestamp(t as int),
    ensures
        valid_offset(r.1 as int),
        r.0@ == local_text(t, r.1),
{
    let dt = chrono::Local.timestamp_opt(t, 0).unwrap();
    (dt.to_string(), dt.offset().local_minus_utc())
}

/// The local date of the timestamp `t`, as a day number
/// (`chrono::Local.timestamp_opt(t, 0).unwrap().date_naive().num_days_from_ce()`),
/// with the offset from UTC of that local time.
///
/// `date_naive` is the date of `t` plus the offset (`naive_local` adds a
/// `FixedOffset`, below a day), and chrono counts 1970-01-01 as day 719163;
/// `local_safe` keeps `naive_local` in range.
#[verifier::external_body]
pub(crate) fn local_day(t: i64) -> (r: (i32, i32))
    requires
        local_safe(t as int),
    ensures
        valid_offset(r.1 as int),
        r.0 as int == local_day_at(t as int, r.1 as int),
{
    let dt = chrono::Local.timestamp_opt(t, 0).unwrap();
    (dt.date_naive().num_days_from_ce(), dt.offset().local_minus_utc())
}

/// Reads the clock and gives today's local date as a day number
/// (`chrono::Local::now().date_naive().num_days_from_ce()`), with the
/// timestamp that was read and the offset from UTC of the local time.
///
/// The clock's value is not fixed; it is in chrono's range and not before
/// 1970 (`Utc::now` panics on a clock set before 1970). The day is that of
/// the timestamp plus the offset, as for `local_day`. `date_naive` panics
/// only where the local time lies beyond chrono's range, which a clock
/// within a day of the year 262142 would need.
#[verifier::external_body]
pub(crate) fn today() -> (r: (i32, i64, i32))
    ensures
        valid_timestamp(r.1 as int),
        r.1 >= 0,
        valid_offset(r.2 as int),
        r.0 as int == local_day_at(r.1 as int, r.2 as int),
{
    let now = chrono::Local::now();
    (now.date_naive().num_days_from_ce(), now.timestamp(), now.offset().local_minus_utc())
}

} // verus!
