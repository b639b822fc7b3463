//! Wall-clock timestamps, as whole seconds since the Unix epoch.
//!
//! The timer's logic takes the current time as an argument; the functions
//! here are the only places that read the machine's clock.

use vstd::prelude::*;

verus! {

/// The earliest timestamp a chrono `DateTime` can hold (the first second of
/// the year -262143, UTC).
pub const MIN_TIMESTAMP: i64 = -8334601315200i64;

/// The latest timestamp a chrono `DateTime` can hold (the last second of the
/// year 262142, UTC).
pub const MAX_TIMESTAMP: i64 = 8210266876799i64;

/// A timestamp that chrono can represent; adding seconds to a `DateTime`
/// succeeds exactly when the sum stays in this range.
pub open spec fn valid_timestamp(t: int) -> bool {
    MIN_TIMESTAMP <= t <= MAX_TIMESTAMP
}

/// Whether `t` is a timestamp that chrono can represent.
pub fn is_valid_timestamp(t: i64) -> (r: bool)
    ensures
        r == valid_timestamp(t as int),
{
    MIN_TIMESTAMP <= t && t <= MAX_TIMESTAMP
}

/// Reads the clock: `chrono::Local::now().timestamp()`.
///
/// The result depends on the time of the call, so nothing fixes its value;
/// the contract only says that it lies in chrono's range, which every
/// `DateTime` does by construction, and is not before the epoch, which
/// `Utc::now` checks (it panics on a clock set before 1970).
#[verifier::external_body]
pub(crate) fn now_timestamp() -> (t: i64)
    ensures
        valid_timestamp(t as int),
        t >= 0,
{
    chrono::Local::now().timestamp()
}

} // verus!
