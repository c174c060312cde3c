//! The name under which a terminal session is logged.
use crate::text::{decimal_text, digit_char, padded_text};
use chrono::Local;
use vstd::prelude::*;

verus! {

/// A point in time in some time zone.
pub struct Moment {
    pub year: int,
    pub month: nat,
    pub day: nat,
    pub hour: nat,
    pub minute: nat,
    pub second: nat,
    pub nanosecond: nat,
    /// Whether the time zone is behind universal time.
    pub behind: bool,
    /// By how many minutes it is behind or ahead.
    pub offset: nat,
}

/// A year as it is written in RFC 3339: four digits, or a sign and four digits at least where the
/// year does not lie within 0 and 9999.
pub open spec fn year_text(year: int) -> Seq<char> {
    if year < 0 {
        seq!['-'] + padded_text((-year) as nat, 4)
    } else if year <= 9999 {
        padded_text(year as nat, 4)
    } else {
        seq!['+'] + padded_text(year as nat, 4)
    }
}

/// The fraction of a second: none for a full second, and else the milliseconds, microseconds or
/// nanoseconds, whichever is the coarsest unit that tells it exactly.
pub open spec fn fraction_text(nanosecond: nat) -> Seq<char> {
    if nanosecond == 0 {
        Seq::empty()
    } else if nanosecond % 1_000_000 == 0 {
        seq!['.'] + padded_text(nanosecond / 1_000_000, 3)
    } else if nanosecond % 1_000 == 0 {
        seq!['.'] + padded_text(nanosecond / 1_000, 6)
    } else {
        seq!['.'] + padded_text(nanosecond, 9)
    }
}

impl Moment {
    /// Whether each part is within its bounds. A minute with a leap second has a second 60, and
    /// time zones are less than a day away from universal time, rounded to minutes.
    pub open spec fn wf(self) -> bool {
        &&& 1 <= self.month <= 12
        &&& 1 <= self.day <= 31
        &&& self.hour < 24
        &&& self.minute < 60
        &&& self.second <= 60
        &&& self.nanosecond < 1_000_000_000
        &&& self.offset <= 24 * 60
    }

    /// The date.
    pub open spec fn date_text(self) -> Seq<char> {
        year_text(self.year) + seq!['-'] + padded_text(self.month, 2) + seq!['-'] + padded_text(
            self.day,
            2,
        )
    }

    /// The time of day.
    pub open spec fn time_text(self) -> Seq<char> {
        padded_text(self.hour, 2) + seq![':'] + padded_text(self.minute, 2) + seq![':']
            + padded_text(self.second, 2) + fraction_text(self.nanosecond)
    }

    /// The distance from universal time.
    pub open spec fn offset_text(self) -> Seq<char> {
        seq![
            if self.behind {
                '-'
            } else {
                '+'
            },
        ] + padded_text(self.offset / 60, 2) + seq![':'] + padded_text(self.offset % 60, 2)
    }

    /// The point in time as it is written in RFC 3339, such as `2021-03-04T05:06:07.089+01:00`.
    pub open spec fn text(self) -> Seq<char> {
        self.date_text() + seq!['T'] + self.time_text() + self.offset_text()
    }
}

/// Whether `text` is a point in time as it is written in RFC 3339.
pub open spec fn is_stamp(text: Seq<char>) -> bool {
    exists|moment: Moment| #[trigger] moment.wf() && text == moment.text()
}

/// Calls `chrono::Local::now` and `DateTime::to_rfc3339`. The text depends on the clock and the
/// time zone; claimed is that it is a point in time as it is written in RFC 3339, not which one. The
/// call panics on a clock that stands before 1970.
#[verifier::external_body]
fn local_stamp() -> (stamp: String)
    ensures
        is_stamp(stamp@),
{
    Local::now().to_rfc3339()
}

/// The name of the log of a session that began at the given time.
pub open spec fn log_name_of(name: Seq<char>, stamp: Seq<char>) -> Seq<char> {
    name + "_"@ + stamp
}

/// The name of the log of a session that began at the given time.
pub fn log_name_at(name: &str, stamp: &str) -> (log: String)
    ensures
        log@ == log_name_of(name@, stamp@),
{
    name.to_owned().concat("_").concat(stamp)
}

/// The name of the log of a session that begins now.
pub fn log_name(name: &str) -> (log: String)
    ensures
        exists|stamp: Seq<char>| #[trigger] is_stamp(stamp) && log@ == log_name_of(name@, stamp),
{
    let stamp = local_stamp();
    log_name_at(name, stamp.as_str())
}

proof fn lemma_decimals_hold_no_underscore(n: nat)
    ensures
        !decimal_text(n).contains('_'),
    decreases n,
{
    if n >= 10 {
        lemma_decimals_hold_no_underscore(n / 10);
        let text = decimal_text(n);
        assert forall|i: int| 0 <= i < text.len() implies text[i] != '_' by {
            if i < text.len() - 1 {
                assert(text[i] == decimal_text(n / 10)[i]);
            } else {
                assert(text[i] == digit_char(n % 10));
            }
        }
    }
}

proof fn lemma_padded_holds_no_underscore(n: nat, width: nat)
    ensures
        !padded_text(n, width).contains('_'),
{
    lemma_decimals_hold_no_underscore(n);
    let digits = decimal_text(n);
    let text = padded_text(n, width);
    let zeros = text.len() - digits.len();
    assert forall|i: int| 0 <= i < text.len() implies text[i] != '_' by {
        if i >= zeros {
            assert(text[i] == digits[i - zeros]);
        }
    }
}

proof fn lemma_sum_holds_no_underscore(a: Seq<char>, b: Seq<char>)
    requires
        !a.contains('_'),
        !b.contains('_'),
    ensures
        !(a + b).contains('_'),
{
    assert forall|i: int| 0 <= i < (a + b).len() implies (a + b)[i] != '_' by {
        if i < a.len() {
            assert(a.contains(a[i]));
        } else {
            assert(b.contains(b[i - a.len()]));
        }
    }
}

/// A point in time is written without an underscore.
pub proof fn law_stamps_hold_no_underscore(stamp: Seq<char>)
    requires
        is_stamp(stamp),
    ensures
        !stamp.contains('_'),
{
    let moment = choose|moment: Moment| #[trigger] moment.wf() && stamp == moment.text();
    assert forall|n: nat, width: nat| !(#[trigger] padded_text(n, width)).contains('_') by {
        lemma_padded_holds_no_underscore(n, width);
    }
    assert forall|a: Seq<char>, b: Seq<char>| !a.contains('_') && !b.contains('_') implies !(
    #[trigger] (a + b)).contains('_') by {
        lemma_sum_holds_no_underscore(a, b);
    }
    assert(!year_text(moment.year).contains('_'));
    assert(!fraction_text(moment.nanosecond).contains('_'));
    assert(!moment.date_text().contains('_'));
    assert(!moment.time_text().contains('_'));
    assert(!moment.offset_text().contains('_'));
}

/// Two logs have the same name only if their sessions do and began at the same time.
pub proof fn law_log_names_tell_sessions_apart(
    name: Seq<char>,
    stamp: Seq<char>,
    other_name: Seq<char>,
    other_stamp: Seq<char>,
)
    requires
        is_stamp(stamp),
        is_stamp(other_stamp),
        log_name_of(name, stamp) == log_name_of(other_name, other_stamp),
    ensures
        name == other_name,
        stamp == other_stamp,
{
    reveal_strlit("_");
    law_stamps_hold_no_underscore(stamp);
    law_stamps_hold_no_underscore(other_stamp);
    let log = log_name_of(name, stamp);
    let other = log_name_of(other_name, other_stamp);
    assert(log.len() == name.len() + 1 + stamp.len());
    assert(other.len() == other_name.len() + 1 + other_stamp.len());
    assert(log[name.len() as int] == '_');
    assert(other[other_name.len() as int] == '_');
    if name.len() < other_name.len() {
        let at = other_name.len() - name.len() - 1;
        assert(stamp[at] == log[other_name.len() as int]);
        assert(stamp.contains(stamp[at]));
    }
    if other_name.len() < name.len() {
        let at = name.len() - other_name.len() - 1;
        assert(other_stamp[at] == other[name.len() as int]);
        assert(other_stamp.contains(other_stamp[at]));
    }
    assert(name =~= log.take(name.len() as int));
    assert(other_name =~= other.take(name.len() as int));
    assert(stamp =~= log.skip((name.len() + 1) as int));
    assert(other_stamp =~= other.skip((name.len() + 1) as int));
}

/// A log's name begins with that of the session and ends with the time, with one underscore between
/// them.
pub proof fn law_log_name_tells_session_and_time(name: Seq<char>, stamp: Seq<char>)
    ensures
        log_name_of(name, stamp).len() == name.len() + 1 + stamp.len(),
        log_name_of(name, stamp).take(name.len() as int) == name,
        log_name_of(name, stamp)[name.len() as int] == '_',
        log_name_of(name, stamp).skip(name.len() as int + 1) == stamp,
{
    reveal_strlit("_");
    assert(log_name_of(name, stamp).take(name.len() as int) =~= name);
    assert(log_name_of(name, stamp).skip(name.len() as int + 1) =~= stamp);
}

} // verus!
