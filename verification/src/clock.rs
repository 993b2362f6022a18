//! The time of a run: a reading of the clock, and the text that stands for
//! it in the file.

use crate::text::opt_view;
use vstd::prelude::*;

verus! {

/// The form of every timestamp that is written: year, month and day, then
/// hour, minute and second.
pub const TIMESTAMP_FORMAT: &'static str = "%Y-%m-%d %H:%M:%S";

/// A reading of the clock, as the caller took it from the machine.
#[derive(Debug, Clone, Copy, PartialEq, Eq, Structural)]
pub struct Clock {
    /// The seconds since the start of 1970 in universal time; negative
    /// before it.
    pub seconds: i64,
    /// The seconds by which local time is ahead of universal time; negative
    /// where it is behind.
    pub offset: i32,
}

/// A decimal digit.
pub open spec fn is_digit(c: char) -> bool {
    '0' <= c && c <= '9'
}

/// A year as it is written: in four digits, or behind a sign in four digits
/// or more where it lies before the year 0 or after the year 9999.
pub open spec fn is_year(y: Seq<char>) -> bool {
    if y.len() == 4 {
        forall|i: int| 0 <= i < 4 ==> is_digit(#[trigger] y[i])
    } else {
        &&& y.len() >= 5
        &&& y[0] == '+' || y[0] == '-'
        &&& forall|i: int| 1 <= i < y.len() ==> is_digit(#[trigger] y[i])
    }
}

/// What follows the year: month and day, then hour, minute and second, in
/// two digits each, with the characters of the format between them.
pub open spec fn is_month_to_second(t: Seq<char>) -> bool {
    &&& t.len() == 15
    &&& t[0] == '-' && is_digit(t[1]) && is_digit(t[2])
    &&& t[3] == '-' && is_digit(t[4]) && is_digit(t[5])
    &&& t[6] == ' ' && is_digit(t[7]) && is_digit(t[8])
    &&& t[9] == ':' && is_digit(t[10]) && is_digit(t[11])
    &&& t[12] == ':' && is_digit(t[13]) && is_digit(t[14])
}

/// A time as `TIMESTAMP_FORMAT` writes it: `YYYY-MM-DD HH:MM:SS`, with a
/// longer, signed year outside the years 0 to 9999.
pub open spec fn is_timestamp(s: Seq<char>) -> bool {
    &&& s.len() >= 19
    &&& is_year(s.take(s.len() - 15))
    &&& is_month_to_second(s.skip(s.len() - 15))
}

/// The text that chrono writes, in the given format, for the time that lies
/// `seconds` after the start of 1970, on a clock that is `offset` seconds
/// ahead of universal time; `None` where chrono holds no such offset or no
/// such time. The text is a matter of the calendar and is decided by the
/// three values alone.
pub uninterp spec fn time_text(seconds: i64, offset: i32, format: Seq<char>) -> Option<Seq<char>>;

/// The time as text: `chrono::FixedOffset::east_opt` for the offset,
/// `chrono::DateTime::from_timestamp` for the time, `DateTime::with_timezone`
/// to move the time to the offset, and `DateTime::format`, turned into a
/// string, to write it.
///
/// The body is not verified. It reads nothing of the machine: the first two
/// calls return `None` where a value is out of chrono's range, and the
/// others return whatever they are given, so the call returns on every
/// input. Of the text its shape is claimed, as chrono documents the six
/// numbers of the format: the year is zero-padded to four digits and stands
/// behind a sign where four digits do not hold it, the other five are
/// zero-padded to two digits, and between them stand the characters of the
/// format. The one format that is admitted is well-formed, so that writing
/// the time out does not fail.
#[verifier::external_body]
pub(crate) fn format_time(seconds: i64, offset: i32, format: &str) -> (r: Option<String>)
    requires
        format@ == TIMESTAMP_FORMAT@,
    ensures
        opt_view(r) == time_text(seconds, offset, format@),
        r matches Some(t) ==> is_timestamp(t@),
{
    let zone = chrono::FixedOffset::east_opt(offset)?;
    let time = chrono::DateTime::from_timestamp(seconds, 0)?;
    Some(time.with_timezone(&zone).format(format).to_string())
}

/// The text that stands for a reading of the clock, where one can be
/// written.
pub open spec fn timestamp_of(clock: Clock) -> Option<Seq<char>> {
    time_text(clock.seconds, clock.offset, TIMESTAMP_FORMAT@)
}

/// The time that is written where the clock gave `time`: the text itself,
/// and nothing where no text could be written.
pub open spec fn time_or_empty(time: Option<Seq<char>>) -> Seq<char> {
    match time {
        Some(t) => t,
        None => Seq::empty(),
    }
}

/// Writes a reading of the clock as local time, year to second. A reading
/// that chrono cannot hold gives `None`.
pub fn timestamp(clock: Clock) -> (r: Option<String>)
    ensures
        opt_view(r) == timestamp_of(clock),
        r matches Some(t) ==> is_timestamp(t@),
{
    format_time(clock.seconds, clock.offset, TIMESTAMP_FORMAT)
}

} // verus!
