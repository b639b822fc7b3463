//! The history command.

use vstd::prelude::*;

use crate::db::History;
use crate::history::{
    entry_lines, is_clock_day, listing, local_days_of, local_texts_of, print_history,
};
use crate::text::{local_safe, views};

verus! {

/// The lines that the history command shows for the finished timers
/// `history`, read from the database, with their starts written and dated
/// in the local time zone: all of them where `show_all` is
/// set, and otherwise today's under a heading, or nothing where none
/// finished today; each with its row id where `print_id` is set.
pub fn run(history: &Vec<History>, show_all: bool, print_id: bool) -> (r: Vec<String>)
    requires
        forall|i: int| 0 <= i < history.len() ==> local_safe(#[trigger] history@[i].started_at as int),
    ensures
        exists|started: Seq<Seq<char>>, days: Seq<i32>, day: i32|
            local_texts_of(started, history@) && local_days_of(days, history@) && is_clock_day(day)
                && #[trigger] listing(entry_lines(history@, started, print_id), days, day, show_all)
                == views(r@),
{
    print_history(history, show_all, print_id)
}

} // verus!
