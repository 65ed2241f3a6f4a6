//! The calendar: how a point in time reads as a date, and which point a
//! written date names.

use vstd::prelude::*;
use crate::timestamp::Timestamp;

verus! {

/// The date and time of day, in UTC, at which the point `secs` seconds and
/// `nanos` nanoseconds after the start of 1970 lies, written as
/// year-month-day, a space, and hours:minutes:seconds with the fraction of
/// the second where there is one; nothing for a point outside the calendar.
pub uninterp spec fn utc_datetime_text(secs: i64, nanos: u32) -> Option<Seq<char>>;

/// The point in time that chrono reads from a date written after RFC 3339,
/// as seconds and nanoseconds after the start of 1970; nothing for text
/// that chrono does not read as such a date.
pub uninterp spec fn rfc3339_instant(text: Seq<char>) -> Option<(i64, u32)>;

/// How the calendar writes the point `t`.
pub open spec fn written(t: Timestamp) -> Option<Seq<char>> {
    utc_datetime_text(t.secs, t.nanos)
}

/// The point that the written date `text` names.
pub open spec fn read(text: Seq<char>) -> Option<Timestamp> {
    match rfc3339_instant(text) {
        Some((secs, nanos)) => Some(Timestamp { secs, nanos }),
        None => None,
    }
}

/// Calls chrono's `DateTime::from_timestamp` and writes the result with the
/// `Display` of `NaiveDateTime`. Trusted: the text is a function of the two
/// numbers alone, and there is none exactly where chrono makes no date of
/// them.
#[verifier::external_body]
pub(crate) fn write_timestamp(t: Timestamp) -> (text: Option<String>)
    ensures
        match text {
            Some(date) => utc_datetime_text(t.secs, t.nanos) == Some(date@),
            None => utc_datetime_text(t.secs, t.nanos) is None,
        },
{
    match chrono::DateTime::from_timestamp(t.secs, t.nanos) {
        Some(moment) => Some(moment.naive_utc().to_string()),
        None => None,
    }
}

/// Calls chrono's `DateTime::parse_from_rfc3339` and takes the result's
/// `timestamp` and `timestamp_subsec_nanos`. Trusted: the two numbers are a
/// function of the text alone, and there are none exactly where chrono
/// refuses the text; and the calendar writes every point that is read, since
/// chrono makes of these two numbers the date they were taken from.
#[verifier::external_body]
pub(crate) fn read_timestamp(text: &str) -> (t: Option<Timestamp>)
    ensures
        match t {
            Some(point) => rfc3339_instant(text@) == Some((point.secs, point.nanos))
                && utc_datetime_text(point.secs, point.nanos) is Some,
            None => rfc3339_instant(text@) is None,
        },
{
    match chrono::DateTime::parse_from_rfc3339(text) {
        Ok(moment) => Some(
            Timestamp { secs: moment.timestamp(), nanos: moment.timestamp_subsec_nanos() },
        ),
        Err(_) => None,
    }
}

} // verus!
