//! Starting a new timer.

use vstd::prelude::*;

use crate::text::{duration_text, humantime_text};

verus! {

/// The line printed when a timer of `secs` seconds and `nanos`
/// nanoseconds is started.
pub open spec fn start_message(secs: u64, nanos: u32) -> Seq<char> {
    "starting a new timer with duration: "@ + humantime_text(secs, nanos)
}

/// The line printed when a timer of `secs` seconds and `nanos`
/// nanoseconds is started.
pub fn start_message_text(secs: u64, nanos: u32) -> (s: String)
    requires
        nanos < 1_000_000_000,
    ensures
        s@ == start_message(secs, nanos),
{
    let d = duration_text(secs, nanos);
    String::from_str("starting a new timer with duration: ").concat(d.as_str())
}

} // verus!
