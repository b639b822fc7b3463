//! The dialog that tells the user a timer is over.

use vstd::prelude::*;

use crate::config::Config;

verus! {

/// The dialog's title: the program's name, marked in a debug build.
pub open spec fn title(debug_mode: bool) -> Seq<char> {
    if debug_mode {
        "mm-pomodoro-dev"@
    } else {
        "mm-pomodoro"@
    }
}

/// The AppleScript that shows `message` in a dialog titled `title` with
/// one button, `OK`.
pub open spec fn dialog_script(message: Seq<char>, title: Seq<char>) -> Seq<char> {
    "display dialog \""@ + message + "\" with title \""@ + title
        + "\" buttons {\"OK\"} default button \"OK\""@
}

/// The dialog's title.
pub fn notification_title(config: &Config) -> (t: &'static str)
    ensures
        t@ == title(config.debug_mode),
{
    if config.debug_mode {
        "mm-pomodoro-dev"
    } else {
        "mm-pomodoro"
    }
}

/// The script that `osascript` runs to show `message`.
pub fn notification_script(config: &Config, message: &str) -> (s: String)
    ensures
        s@ == dialog_script(message@, title(config.debug_mode)),
{
    let name = notification_title(config);
    let mut s = String::from_str("display dialog \"");
    s.append(message);
    s.append("\" with title \"");
    s.append(name);
    s.append("\" buttons {\"OK\"} default button \"OK\"");
    assert(s@ =~= dialog_script(message@, title(config.debug_mode)));
    s
}

} // verus!
