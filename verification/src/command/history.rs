//! The plain history listing: every finished timer read from the
//! database, each with its row id.

use vstd::prelude::*;

use crate::db::History;
use crate::history::{entry_lines, history_lines, local_texts_of};
use crate::clock::valid_timestamp;
use crate::text::views;

verus! {

/// The lines for the finished timers `history`, one per timer, each with
/// its row id.
pub fn run(history: &Vec<History>) -> (r: Vec<String>)
    requires
        forall|i: int| 0 <= i < history.len() ==> valid_timestamp(#[trigger] history@[i].started_at as int),
    ensures
        exists|started: Seq<Seq<char>>|
            local_texts_of(started, history@) && #[trigger] entry_lines(history@, started, true)
                == views(r@),
{
    history_lines(history, true)
}

} // verus!
