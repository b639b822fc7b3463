//! A finished timer, as the history database keeps it.

use vstd::prelude::*;

use crate::clock::valid_timestamp;
use crate::text::{
    decimal, duration_text, humantime_text, i64_text, is_local_text, local_time_text, valid_offset,
};

verus! {

/// A finished timer: its row id, its start as a Unix timestamp and its
/// length in seconds.
#[derive(Clone, Copy, Debug, PartialEq, Eq, Structural)]
pub struct History {
    pub id: i64,
    pub started_at: i64,
    pub duration: u64,
}

/// The line shown for the finished timer `h`, whose start reads `started`
/// in the local time zone; with `print_id` it begins with the row id.
pub open spec fn entry_line(h: History, started: Seq<char>, print_id: bool) -> Seq<char> {
    let tail = "started_at: "@ + started + ", duration: "@ + humantime_text(h.duration, 0);
    if print_id {
        "id: "@ + decimal(h.id as int) + ", "@ + tail
    } else {
        tail
    }
}

impl History {
    /// The line for this timer, given the text of its start.
    pub fn line_with(&self, started: &str, print_id: bool) -> (s: String)
        ensures
            s@ == entry_line(*self, started@, print_id),
    {
        let mut s = if print_id {
            let head = String::from_str("id: ");
            let id = i64_text(self.id);
            head.concat(id.as_str()).concat(", ")
        } else {
            String::new()
        };
        s.append("started_at: ");
        s.append(started);
        s.append(", duration: ");
        let d = duration_text(self.duration, 0);
        s.append(d.as_str());
        proof {
            let tail = "started_at: "@ + started@ + ", duration: "@ + humantime_text(self.duration, 0);
            if print_id {
                assert(s@ =~= "id: "@ + decimal(self.id as int) + ", "@ + tail);
            } else {
                assert(s@ =~= tail);
            }
        }
        s
    }

    /// The line for this timer, with its start in the local time zone.
    pub fn line(&self, print_id: bool) -> (s: String)
        requires
            valid_timestamp(self.started_at as int),
        ensures
            exists|started: Seq<char>|
                is_local_text(started, self.started_at) && #[trigger] entry_line(*self, started, print_id) == s@,
    {
        let (started, offset) = local_time_text(self.started_at);
        let s = self.line_with(started.as_str(), print_id);
        assert(valid_offset(offset as int));
        assert(is_local_text(started@, self.started_at));
        assert(entry_line(*self, started@, print_id) == s@);
        s
    }
}

impl History {
    /// The line that the history shows for this timer: its row id, its
    /// start in the local time zone and its length.
    pub fn pretty_print(&self) -> (s: String)
        requires
            valid_timestamp(self.started_at as int),
        ensures
            exists|started: Seq<char>|
                is_local_text(started, self.started_at) && #[trigger] entry_line(*self, started, true) == s@,
    {
        self.line(true)
    }
}

} // verus!
