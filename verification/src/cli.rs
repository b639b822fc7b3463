//! The command line: its commands, the reading of a timer's length, and
//! what the program does for each command.

use vstd::prelude::*;
use vstd::string::StrSliceExecFns;

verus! {

/// The commands of the program.
#[derive(Debug)]
pub enum Commands {
    /// Start a new timer of the given length.
    New { duration: String },
    /// Show the current timer.
    Status,
    /// Pause the current timer.
    Pause,
    /// Resume the current timer.
    Resume,
    /// Stop the current timer.
    Stop,
    /// Show the finished timers: all recent ones, or only today's.
    History { all: bool, print_id: bool },
    /// Delete a finished timer from the history.
    DeleteHistory { id: u32 },
}

/// The parsed command line.
#[derive(Debug)]
pub struct Cli {
    pub command: Option<Commands>,
}

/// What the program does for a command.
#[derive(Clone, Copy, Debug, PartialEq, Eq, Structural)]
pub enum Action {
    ShowStatus,
    Pause,
    Resume,
    Stop,
    ShowHistory { all: bool, print_id: bool },
    /// Start the timer daemon with a timer of this length.
    StartTimer { secs: u64, nanos: u32 },
    DeleteHistory { id: u32 },
}

/// Declares `humantime::DurationError`, the error of a rejected length.
#[verifier::external_type_specification]
#[verifier::external_body]
pub struct ExDurationError(humantime::DurationError);

/// Why a command line cannot be carried out.
#[derive(Debug)]
pub enum CliError {
    /// The timer's length is not one that `humantime` reads.
    InvalidDuration(humantime::DurationError),
    /// The numbers in the timer's length add up to so much that
    /// `humantime` is not asked to read it (see `within_humantime_range`).
    DurationTooLarge,
}

pub open spec fn is_ascii_digit(c: char) -> bool {
    '0' <= c <= '9'
}

pub open spec fn all_digits(s: Seq<char>) -> bool {
    forall|i: int| 0 <= i < s.len() ==> #[trigger] is_ascii_digit(s[i])
}

/// The number that the decimal digits `s` write.
pub open spec fn digits_value(s: Seq<char>) -> nat
    decreases s.len(),
{
    if s.len() == 0 {
        0
    } else {
        digits_value(s.drop_last()) * 10 + (s.last() as nat - '0' as nat) as nat
    }
}

/// The digits of an unsigned number, after an optional leading `+`.
pub open spec fn unsigned_digits(s: Seq<char>) -> Seq<char> {
    if s.len() > 0 && s[0] == '+' {
        s.drop_first()
    } else {
        s
    }
}

/// `s` reads as a `u64` (what `str::parse::<u64>` accepts): an optional
/// `+`, then at least one decimal digit, with a value that fits.
pub open spec fn parses_as_u64(s: Seq<char>) -> bool {
    let d = unsigned_digits(s);
    d.len() > 0 && all_digits(d) && digits_value(d) <= u64::MAX
}

/// The length argument with its unit: a bare number counts minutes.
pub open spec fn with_unit(s: Seq<char>) -> Seq<char> {
    if parses_as_u64(s) {
        s + seq!['m']
    } else {
        s
    }
}

/// `s` is a number of minutes: decimal digits and then `m`.
pub open spec fn minutes_literal(s: Seq<char>) -> bool {
    &&& s.len() >= 2
    &&& s.last() == 'm'
    &&& all_digits(s.drop_last())
    &&& digits_value(s.drop_last()) * 60 <= u64::MAX
}

/// A character that ends a number in a length text: a letter (the start of
/// a unit), `µ`, or the decimal point.
pub open spec fn ends_number(c: char) -> bool {
    ('a' <= c <= 'z') || ('A' <= c <= 'Z') || c == '\u{b5}' || c == '.'
}

/// The value of the digits after the last character that ends a number.
pub open spec fn open_value(s: Seq<char>) -> nat
    decreases s.len(),
{
    if s.len() == 0 {
        0
    } else if ends_number(s.last()) {
        0
    } else if is_ascii_digit(s.last()) {
        open_value(s.drop_last()) * 10 + (s.last() as nat - '0' as nat) as nat
    } else {
        open_value(s.drop_last())
    }
}

/// A bound, in seconds, on one of the unit that a number followed by `c`
/// has: units starting with `n`, `u`, `\u{b5}` or `s` are a second or
/// less, `h` hours, `d` days, `w` weeks; `m` starts minutes, milliseconds
/// and months, `M` months; anything else (years, the decimal point before
/// a fraction whose unit comes later, an unknown unit) is bounded by a
/// year.
pub open spec fn unit_bound(c: char) -> nat {
    if c == 'n' || c == 'u' || c == '\u{b5}' || c == 's' {
        1
    } else if c == 'h' {
        3600
    } else if c == 'd' {
        86400
    } else if c == 'w' {
        604800
    } else if c == 'm' || c == 'M' {
        2630016
    } else {
        31557600
    }
}

/// The sum, over the stretches of `s` that end with a character that ends
/// a number, of the value of the digits in the stretch plus one, times the
/// bound of the unit that the ending character starts.
pub open spec fn closed_weight(s: Seq<char>) -> nat
    decreases s.len(),
{
    if s.len() == 0 {
        0
    } else if ends_number(s.last()) {
        closed_weight(s.drop_last()) + (open_value(s.drop_last()) + 1) * unit_bound(s.last())
    } else {
        closed_weight(s.drop_last())
    }
}

/// A bound on the seconds of the length that `s` writes, at every step of
/// reading it.
pub open spec fn number_weight(s: Seq<char>) -> nat {
    closed_weight(s) + open_value(s) + 1
}

/// The largest weight that keeps the seconds below `u64::MAX`.
pub const HUMANTIME_WEIGHT_LIMIT: u64 = 18446744073709551614u64;

/// The numbers in `s` are small enough that `humantime::parse_duration`
/// keeps its count of seconds below `u64::MAX` while it reads `s`.
pub open spec fn within_humantime_range(s: Seq<char>) -> bool {
    number_weight(s) <= HUMANTIME_WEIGHT_LIMIT
}

/// A printable ASCII character other than the space.
pub open spec fn is_ascii_graphic(c: char) -> bool {
    '!' <= c <= '~'
}

/// The length, in seconds and nanoseconds, that `humantime::parse_duration`
/// reads from the text `s`; `None` where it rejects the text.
pub uninterp spec fn humantime_duration(s: Seq<char>) -> Option<(u64, u32)>;

/// Calls `humantime::parse_duration`.
///
/// `parse_duration` panics where, while it adds a unit, the nanoseconds
/// come to exactly one second and the seconds are already `u64::MAX`
/// (`add_current` normalises nanoseconds only above one second, and
/// `Duration::new` panics when its carry overflows). Each number `n` that
/// it reads adds, with its fraction and the carried nanoseconds, at most
/// `n + 1` of its unit; the unit is named by the letters that follow the
/// number, and `unit_bound` of the first of them bounds the unit (the
/// units of `Unit::from_str` that start with `n`, `u`, `\u{b5}`, `s` are a
/// second or less, `h` an hour, `d` a day, `w` a week, `m` and `M` a month
/// or less, and none is more than a year). The digits of `n` all stand
/// between two characters that end a number. So where
/// `within_humantime_range` holds the seconds stay below `u64::MAX` and
/// nothing panics.
///
/// The result is the one named by `humantime_duration`; its nanoseconds
/// are those of a `Duration`, below one second. The source shows three
/// more facts. An empty text is rejected (`Error::Empty`). A text whose
/// first character is a printable ASCII character other than a digit is
/// rejected (`parse_first_char` gives `NumberExpected`). A text of decimal
/// digits followed by `m`, whose value in seconds fits a `u64`, is that
/// many minutes: the digit loop reads the number, `m` is the unit
/// `Minute`, which multiplies by 60 with a checked product, and nothing
/// follows.
#[verifier::external_body]
fn parse_duration(s: &str) -> (r: Result<(u64, u32), humantime::DurationError>)
    requires
        within_humantime_range(s@),
    ensures
        r is Ok <==> humantime_duration(s@) is Some,
        r is Ok ==> humantime_duration(s@) == Some(r->Ok_0),
        r is Ok ==> r->Ok_0.1 < 1_000_000_000,
        s@.len() == 0 ==> r is Err,
        s@.len() > 0 && is_ascii_graphic(s@[0]) && !is_ascii_digit(s@[0]) ==> r is Err,
        minutes_literal(s@) ==> r is Ok && r->Ok_0 == ((digits_value(s@.drop_last()) * 60) as u64, 0u32),
{
    match humantime::parse_duration(s) {
        Ok(d) => Ok((d.as_secs(), d.subsec_nanos())),
        Err(e) => Err(e),
    }
}

/// The weight of a text does not decrease as characters are appended.
proof fn lemma_weight_grows(s: Seq<char>, k: int)
    requires
        0 <= k <= s.len(),
    ensures
        number_weight(s.subrange(0, k)) <= number_weight(s),
    decreases s.len() - k,
{
    if k < s.len() {
        let t = s.subrange(0, k + 1);
        let p = s.subrange(0, k);
        assert(t.drop_last() =~= p);
        lemma_weight_grows(s, k + 1);
        if is_ascii_digit(t.last()) && !ends_number(t.last()) {
            assert(open_value(t) == open_value(p) * 10 + (t.last() as nat - '0' as nat) as nat);
        }
        if ends_number(t.last()) {
            assert(unit_bound(t.last()) >= 1);
            assert((open_value(p) + 1) * unit_bound(t.last()) >= open_value(p) + 1) by (nonlinear_arith)
                requires
                    unit_bound(t.last()) >= 1,
            ;
        }
        assert(number_weight(p) <= number_weight(t));
    } else {
        assert(s.subrange(0, k) =~= s);
    }
}

/// A text of digits has no closed stretch, and its open value is its
/// number.
proof fn lemma_weight_of_digits(d: Seq<char>)
    requires
        all_digits(d),
    ensures
        closed_weight(d) == 0,
        open_value(d) == digits_value(d),
    decreases d.len(),
{
    if d.len() > 0 {
        assert(is_ascii_digit(d[d.len() - 1]));
        assert(all_digits(d.drop_last())) by {
            assert forall|i: int| 0 <= i < d.drop_last().len() implies #[trigger] is_ascii_digit(
                d.drop_last()[i],
            ) by {
                assert(d.drop_last()[i] == d[i]);
            }
        }
        lemma_weight_of_digits(d.drop_last());
    }
}

fn unit_bound_of(c: char) -> (b: u64)
    ensures
        b as nat == unit_bound(c),
{
    if c == 'n' || c == 'u' || c == '\u{b5}' || c == 's' {
        1
    } else if c == 'h' {
        3600
    } else if c == 'd' {
        86400
    } else if c == 'w' {
        604800
    } else if c == 'm' || c == 'M' {
        2630016
    } else {
        31557600
    }
}

/// Whether the numbers in `s` are within `humantime`'s range.
pub fn within_humantime_range_of(s: &str) -> (r: bool)
    ensures
        r == within_humantime_range(s@),
{
    let n = s.unicode_len();
    let mut closed: u64 = 0;
    let mut open: u64 = 0;
    let mut i: usize = 0;
    while i < n
        invariant
            0 <= i <= n,
            n == s@.len(),
            closed as nat == closed_weight(s@.subrange(0, i as int)),
            open as nat == open_value(s@.subrange(0, i as int)),
            closed + open + 1 <= HUMANTIME_WEIGHT_LIMIT,
        decreases n - i,
    {
        let c = s.get_char(i);
        let ghost t = s@.subrange(0, i + 1);
        assert(t.drop_last() =~= s@.subrange(0, i as int));
        assert(t.last() == c);
        if ('a' <= c && c <= 'z') || ('A' <= c && c <= 'Z') || c == '\u{b5}' || c == '.' {
            let b = unit_bound_of(c);
            assert((open as u128 + 1) * (b as u128) <= 18446744073709551616u128 * 31557600u128)
                by (nonlinear_arith)
                requires
                    open as u128 + 1 <= 18446744073709551616u128,
                    b <= 31557600,
            ;
            let w: u128 = closed as u128 + (open as u128 + 1) * (b as u128) + 1;
            assert(closed_weight(t) == closed + (open + 1) * b);
            assert(open_value(t) == 0);
            if w > HUMANTIME_WEIGHT_LIMIT as u128 {
                proof {
                    lemma_weight_grows(s@, i + 1);
                }
                return false;
            }
            closed = (closed as u128 + (open as u128 + 1) * (b as u128)) as u64;
            open = 0;
        } else if '0' <= c && c <= '9' {
            let digit = (c as u32 - '0' as u32) as u64;
            let w: u128 = closed as u128 + (open as u128) * 10 + digit as u128 + 1;
            assert(open_value(t) == open * 10 + digit);
            if w > HUMANTIME_WEIGHT_LIMIT as u128 {
                proof {
                    lemma_weight_grows(s@, i + 1);
                }
                return false;
            }
            open = open * 10 + digit;
        }
        i = i + 1;
    }
    assert(s@.subrange(0, n as int) =~= s@);
    true
}

/// `digits_value` does not decrease as digits are added.
proof fn lemma_digits_value_prefix(s: Seq<char>, k: int)
    requires
        0 <= k <= s.len(),
        all_digits(s),
    ensures
        digits_value(s.subrange(0, k)) <= digits_value(s),
    decreases s.len(),
{
    if k < s.len() {
        assert(s.drop_last() =~= s.subrange(0, s.len() - 1));
        assert(s.subrange(0, k) =~= s.drop_last().subrange(0, k));
        lemma_digits_value_prefix(s.drop_last(), k);
    } else {
        assert(s.subrange(0, k) =~= s);
    }
}

/// Whether `s` reads as a `u64`, as `s.parse::<u64>().is_ok()` says.
pub fn reads_as_u64(s: &str) -> (r: bool)
    ensures
        r == parses_as_u64(s@),
{
    let n = s.unicode_len();
    if n == 0 {
        return false;
    }
    let start: usize = if s.get_char(0) == '+' { 1 } else { 0 };
    if start == n {
        return false;
    }
    let ghost d = unsigned_digits(s@);
    assert(d =~= s@.subrange(start as int, n as int));
    let mut value: u64 = 0;
    let mut i: usize = start;
    while i < n
        invariant
            start <= i <= n,
            n == s@.len(),
            d == unsigned_digits(s@),
            d =~= s@.subrange(start as int, n as int),
            all_digits(d.subrange(0, i - start)),
            value as nat == digits_value(d.subrange(0, i - start)),
        decreases n - i,
    {
        let c = s.get_char(i);
        assert(c == d[i - start]);
        if !('0' <= c && c <= '9') {
            assert(!is_ascii_digit(d[i - start]));
            return false;
        }
        let digit = (c as u32 - '0' as u32) as u64;
        assert(d.subrange(0, i + 1 - start).drop_last() =~= d.subrange(0, i - start));
        assert(all_digits(d.subrange(0, i + 1 - start)));
        match value.checked_mul(10) {
            Some(v) => match v.checked_add(digit) {
                Some(w) => {
                    value = w;
                },
                None => {
                    proof { lemma_overflow_rejects(d, (i + 1 - start) as int); }
                    return false;
                },
            },
            None => {
                proof { lemma_overflow_rejects(d, (i + 1 - start) as int); }
                return false;
            },
        }
        i = i + 1;
    }
    assert(d.subrange(0, n - start) =~= d);
    true
}

/// Where a prefix of digits is already too large, `s` does not read as a
/// `u64`.
proof fn lemma_overflow_rejects(d: Seq<char>, k: int)
    requires
        0 < k <= d.len(),
        all_digits(d.subrange(0, k)),
        digits_value(d.subrange(0, k)) > u64::MAX,
    ensures
        !(all_digits(d) && digits_value(d) <= u64::MAX),
{
    if all_digits(d) {
        lemma_digits_value_prefix(d, k);
    }
}

/// The length argument with its unit: a bare number gets `m` appended.
pub fn duration_with_unit(duration: &str) -> (r: String)
    ensures
        r@ == with_unit(duration@),
{
    let s = String::from_str(duration);
    if reads_as_u64(duration) {
        proof {
            reveal_strlit("m");
        }
        s.concat("m")
    } else {
        s
    }
}

/// The action for a command; `None` where the timer's length is rejected.
pub open spec fn planned(command: Commands) -> Option<Action> {
    match command {
        Commands::New { duration } => if !within_humantime_range(with_unit(duration@)) {
            None
        } else {
            match humantime_duration(with_unit(duration@)) {
                Some(v) => Some(Action::StartTimer { secs: v.0, nanos: v.1 }),
                None => None,
            }
        },
        Commands::Status => Some(Action::ShowStatus),
        Commands::Pause => Some(Action::Pause),
        Commands::Resume => Some(Action::Resume),
        Commands::Stop => Some(Action::Stop),
        Commands::History { all, print_id } => Some(Action::ShowHistory { all, print_id }),
        Commands::DeleteHistory { id } => Some(Action::DeleteHistory { id }),
    }
}

impl Commands {
    /// A copy of the command.
    pub fn copied(&self) -> (c: Commands)
        ensures
            c == *self,
    {
        match self {
            Commands::New { duration } => Commands::New { duration: duration.clone() },
            Commands::Status => Commands::Status,
            Commands::Pause => Commands::Pause,
            Commands::Resume => Commands::Resume,
            Commands::Stop => Commands::Stop,
            Commands::History { all, print_id } => Commands::History { all: *all, print_id: *print_id },
            Commands::DeleteHistory { id } => Commands::DeleteHistory { id: *id },
        }
    }
}

impl Cli {
    /// The command given, `Status` where none was.
    pub fn command(&self) -> (c: Commands)
        ensures
            c == (match self.command {
                Some(c) => c,
                None => Commands::Status,
            }),
    {
        match &self.command {
            Some(c) => c.copied(),
            None => Commands::Status,
        }
    }
}

/// The action for the command line `cli`.
///
/// A bare number as a timer's length counts minutes: for a length made of
/// decimal digits, whose count of months stays below `u64::MAX` seconds,
/// the timer is that many minutes long. An empty length, and one that
/// starts with a printable character other than a digit, is rejected.
pub fn run(cli: &Cli) -> (r: Result<Action, CliError>)
    ensures
        r is Ok <==> planned(cli.command.unwrap_or(Commands::Status)) is Some,
        r matches Ok(a) ==> planned(cli.command.unwrap_or(Commands::Status)) == Some(a),
        r matches Ok(Action::StartTimer { nanos, .. }) ==> nanos < 1_000_000_000,
        r matches Err(CliError::DurationTooLarge) <==> (cli.command matches Some(
            Commands::New { duration },
        ) && !within_humantime_range(with_unit(duration@))),
        cli.command matches Some(Commands::New { duration }) ==> (
            duration@.len() > 0 && all_digits(duration@) && (digits_value(duration@) + 1) * 2630016
                + 1 <= HUMANTIME_WEIGHT_LIMIT
            ==> r == Ok::<Action, CliError>(Action::StartTimer {
                secs: (digits_value(duration@) * 60) as u64,
                nanos: 0,
            })),
        cli.command matches Some(Commands::New { duration }) ==> (
            duration@.len() == 0 || (is_ascii_graphic(duration@[0]) && !is_ascii_digit(duration@[0]))
            ==> r is Err),
{
    match cli.command() {
        Commands::Status => Ok(Action::ShowStatus),
        Commands::Pause => Ok(Action::Pause),
        Commands::Resume => Ok(Action::Resume),
        Commands::Stop => Ok(Action::Stop),
        Commands::History { all, print_id } => Ok(Action::ShowHistory { all, print_id }),
        Commands::New { duration } => {
            let text = duration_with_unit(duration.as_str());
            proof {
                if duration@.len() > 0 && all_digits(duration@) && (digits_value(duration@) + 1)
                    * 2630016 + 1 <= HUMANTIME_WEIGHT_LIMIT {
                    assert(is_ascii_digit(duration@[0]));
                    assert(unsigned_digits(duration@) == duration@);
                    assert(text@.drop_last() =~= duration@);
                    lemma_weight_of_digits(duration@);
                    assert(text@.last() == 'm');
                    assert(number_weight(text@) == (digits_value(duration@) + 1) * 2630016 + 1);
                }
                if duration@.len() > 0 {
                    assert(text@[0] == duration@[0]);
                }
            }
            if !within_humantime_range_of(text.as_str()) {
                return Err(CliError::DurationTooLarge);
            }
            match parse_duration(text.as_str()) {
                Ok(v) => Ok(Action::StartTimer { secs: v.0, nanos: v.1 }),
                Err(e) => Err(CliError::InvalidDuration(e)),
            }
        },
        Commands::DeleteHistory { id } => Ok(Action::DeleteHistory { id }),
    }
}

} // verus!
