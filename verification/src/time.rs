//! Points in time, and the date and time notations that are read and
//! written through `chrono`.

use vstd::prelude::*;

verus! {

/// Nanoseconds in one second.
pub const NANOS_PER_SECOND: i128 = 1_000_000_000;

/// Seconds in one day of the UTC time line.
pub const SECONDS_PER_DAY: i64 = 86_400;

/// Day number of 1970-01-01 where 0001-01-01 is day 1.
pub const UNIX_EPOCH_DAY: i64 = 719_163;

/// An absolute point in time on the UTC time line.
///
/// `secs` counts whole seconds since 1970-01-01T00:00:00Z (negative before
/// it) and `nanos` the nanoseconds past the start of that second. During a
/// leap second `nanos` may run up to 1_999_999_999; such nanoseconds count
/// as they stand, so that a leap second ends where the second after it
/// ends.
#[derive(Clone, Copy, Debug, PartialEq, Eq, Structural)]
pub struct Timestamp {
    pub secs: i64,
    pub nanos: u32,
}

impl Timestamp {
    /// Nanoseconds from 1970-01-01T00:00:00Z to `self`, negative before it.
    pub open spec fn instant(self) -> int {
        self.secs * 1_000_000_000 + self.nanos
    }

    /// `self` is not later than `other`.
    pub open spec fn at_or_before(self, other: Timestamp) -> bool {
        self.instant() <= other.instant()
    }

    /// Signed distance in nanoseconds from `earlier` to `self`.
    pub open spec fn nanos_since(self, earlier: Timestamp) -> int {
        self.instant() - earlier.instant()
    }

    /// Order and distance agree: one timestamp is not later than another
    /// exactly when the distance from it to the other is not negative.
    pub proof fn lemma_order_follows_distance(self, other: Timestamp)
        ensures
            self.at_or_before(other) <==> other.nanos_since(self) >= 0,
    {
    }

    /// Outside a leap second, seconds decide the order and nanoseconds
    /// break ties.
    pub proof fn lemma_order_by_fields(self, other: Timestamp)
        requires
            self.nanos < 1_000_000_000,
            other.nanos < 1_000_000_000,
        ensures
            self.at_or_before(other) <==> self.secs < other.secs || (self.secs == other.secs
                && self.nanos <= other.nanos),
    {
    }

    /// Whether `self` is not later than `other`.
    pub fn is_at_or_before(&self, other: &Timestamp) -> (r: bool)
        ensures
            r == self.at_or_before(*other),
    {
        let own: i128 = self.secs as i128 * NANOS_PER_SECOND + self.nanos as i128;
        let others: i128 = other.secs as i128 * NANOS_PER_SECOND + other.nanos as i128;
        own <= others
    }

    /// Whether `self` lies at most `seconds` seconds after `earlier`.
    ///
    /// A timestamp that lies before `earlier` has a negative distance and so
    /// is within every non-negative limit.
    pub fn is_within(&self, earlier: &Timestamp, seconds: i64) -> (r: bool)
        ensures
            r == (self.nanos_since(*earlier) <= seconds * 1_000_000_000),
    {
        let whole: i128 = (self.secs as i128 - earlier.secs as i128) * NANOS_PER_SECOND;
        let part: i128 = self.nanos as i128 - earlier.nanos as i128;
        let limit: i128 = seconds as i128 * NANOS_PER_SECOND;
        whole + part <= limit
    }
}

/// The day number of the calendar date that `text` spells in the notation
/// `format`, where 0001-01-01 is day 1; `None` where `text` spells no date
/// in that notation.
pub uninterp spec fn calendar_day_number(text: Seq<char>, format: Seq<char>) -> Option<i32>;

/// The instant that `text` spells as a date and time with an offset from
/// UTC; `None` where `text` is no such notation.
pub uninterp spec fn offset_datetime_instant(text: Seq<char>) -> Option<Timestamp>;

/// The instant that `text` spells as a date and time without an offset,
/// taken as UTC; `None` where `text` is no such notation.
pub uninterp spec fn plain_datetime_instant(text: Seq<char>) -> Option<Timestamp>;

/// The RFC 3339 notation of the instant `at`; `None` where `at` lies outside
/// the years that the calendar covers or `nanos` is not valid for `secs`.
pub uninterp spec fn rfc3339_text(at: Timestamp) -> Option<Seq<char>>;

/// Calls `chrono::NaiveDate::parse_from_str` and, on the date it returns,
/// `chrono::Datelike::num_days_from_ce`.
///
/// Trusted: the day number is a function of `text` and `format` alone, here
/// called [`calendar_day_number`]; a text that does not parse gives `None`.
#[verifier::external_body]
pub(crate) fn parse_calendar_day(text: &str, format: &str) -> (r: Option<i32>)
    ensures
        r == calendar_day_number(text@, format@),
{
    chrono::NaiveDate::parse_from_str(text, format).ok().map(
        |date| chrono::Datelike::num_days_from_ce(&date),
    )
}

/// Calls `str::parse::<chrono::DateTime<chrono::Utc>>`, which reads a
/// relaxed RFC 3339 notation, and takes the result apart with
/// `DateTime::timestamp` and `DateTime::timestamp_subsec_nanos`.
///
/// Trusted: the instant is a function of `text` alone, here called
/// [`offset_datetime_instant`]; a text that does not parse gives `None`.
#[verifier::external_body]
pub(crate) fn parse_offset_datetime(text: &str) -> (r: Option<Timestamp>)
    ensures
        r == offset_datetime_instant(text@),
{
    text.parse::<chrono::DateTime<chrono::Utc>>().ok().map(
        |at| Timestamp { secs: at.timestamp(), nanos: at.timestamp_subsec_nanos() },
    )
}

/// Calls `str::parse::<chrono::NaiveDateTime>`, reads the result as UTC with
/// `NaiveDateTime::and_utc` and takes it apart with `DateTime::timestamp`
/// and `DateTime::timestamp_subsec_nanos`.
///
/// Trusted: the instant is a function of `text` alone, here called
/// [`plain_datetime_instant`]; a text that does not parse gives `None`.
#[verifier::external_body]
pub(crate) fn parse_plain_datetime(text: &str) -> (r: Option<Timestamp>)
    ensures
        r == plain_datetime_instant(text@),
{
    text.parse::<chrono::NaiveDateTime>().ok().map(
        |at| Timestamp { secs: at.and_utc().timestamp(), nanos: at.and_utc().timestamp_subsec_nanos() },
    )
}

/// Calls `chrono::DateTime::from_timestamp` and, on the date-time it
/// returns, `DateTime::to_rfc3339`.
///
/// Trusted: the text is a function of the instant alone, here called
/// [`rfc3339_text`]; an instant that `from_timestamp` refuses gives `None`.
#[verifier::external_body]
pub(crate) fn format_rfc3339(at: Timestamp) -> (r: Option<String>)
    ensures
        r is Some == rfc3339_text(at) is Some,
        r is Some ==> rfc3339_text(at) == Some(r->0@),
{
    chrono::DateTime::from_timestamp(at.secs, at.nanos).map(|at| at.to_rfc3339())
}

/// The first instant of the day with number `day`, where 0001-01-01 is day 1.
pub open spec fn midnight(day: i32) -> Timestamp {
    Timestamp { secs: ((day - 719_163) * 86_400) as i64, nanos: 0 }
}

/// The instant a date bound stands for, given what its text spells in each
/// of the three notations: a calendar date stands for the first instant of
/// that day in UTC; failing that, a date and time with an offset stands for
/// itself; failing that, a date and time without an offset is taken as UTC.
pub open spec fn date_bound(
    day: Option<i32>,
    with_offset: Option<Timestamp>,
    plain: Option<Timestamp>,
) -> Option<Timestamp> {
    match day {
        Some(day) => Some(midnight(day)),
        None => match with_offset {
            Some(at) => Some(at),
            None => plain,
        },
    }
}

/// The instant that the text of a date bound stands for; `None` where the
/// text is in none of the notations.
pub open spec fn date_bound_of_text(text: Seq<char>) -> Option<Timestamp> {
    date_bound(
        calendar_day_number(text, "%Y-%m-%d"@),
        offset_datetime_instant(text),
        plain_datetime_instant(text),
    )
}

/// The first instant of the day with number `day`.
pub fn midnight_of_day(day: i32) -> (r: Timestamp)
    ensures
        r == midnight(day),
{
    let secs: i64 = (day as i64 - UNIX_EPOCH_DAY) * SECONDS_PER_DAY;
    Timestamp { secs, nanos: 0 }
}

/// Picks the instant of a date bound from the readings of its text.
pub fn resolve_date_bound(
    day: Option<i32>,
    with_offset: Option<Timestamp>,
    plain: Option<Timestamp>,
) -> (r: Option<Timestamp>)
    ensures
        r == date_bound(day, with_offset, plain),
{
    match day {
        Some(day) => Some(midnight_of_day(day)),
        None => match with_offset {
            Some(at) => Some(at),
            None => plain,
        },
    }
}

/// Reads the text of a date bound: a calendar date `YYYY-MM-DD`, or a full
/// date and time with or without an offset from UTC.
pub fn parse_date_bound(text: &str) -> (r: Option<Timestamp>)
    ensures
        r == date_bound_of_text(text@),
{
    let day: Option<i32> = parse_calendar_day(text, "%Y-%m-%d");
    let with_offset: Option<Timestamp> = parse_offset_datetime(text);
    let plain: Option<Timestamp> = parse_plain_datetime(text);
    resolve_date_bound(day, with_offset, plain)
}

} // verus!
