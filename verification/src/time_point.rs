//! Points in time, held as millisecond counts since the Unix epoch.

use vstd::prelude::*;

verus! {

/// A point in time, UTC, with millisecond resolution, held as the
/// millisecond count since the Unix epoch.
#[derive(Clone, Copy, PartialEq, Eq, Structural, Debug)]
pub struct TimePoint {
    pub millis: i64,
}

/// The outcome of parsing a text in the fixed pattern `YYYY-MM-DD HH:MM:SS`
/// as a UTC instant: the millisecond count since the Unix epoch, or `None`
/// where the text does not match the pattern.
pub uninterp spec fn parsed_timestamp_millis(s: Seq<char>) -> Option<i64>;

/// Relies on chrono's `NaiveDateTime::parse_from_str` with the pattern
/// `"%Y-%m-%d %H:%M:%S"`, and on `DateTime::<Utc>::timestamp_millis` reached
/// through `NaiveDateTime::and_utc`: with a fixed pattern, whether the text
/// parses and the millisecond count of the parsed instant depend on the text
/// alone.
#[verifier::external_body]
fn parse_timestamp_millis(s: &str) -> (r: Option<i64>)
    ensures
        r == parsed_timestamp_millis(s@),
{
    chrono::NaiveDateTime::parse_from_str(s, "%Y-%m-%d %H:%M:%S")
        .ok()
        .map(|t| t.and_utc().timestamp_millis())
}

/// Parses a text in the fixed pattern `YYYY-MM-DD HH:MM:SS` (24-hour, no
/// timezone suffix, read as UTC) into a `TimePoint`; `None` where the text
/// does not match the pattern.
pub fn create_time_point_from_string(datetime: &str) -> (r: Option<TimePoint>)
    ensures
        match parsed_timestamp_millis(datetime@) {
            Some(m) => r == Some((TimePoint { millis: m })),
            None => r is None,
        },
{
    match parse_timestamp_millis(datetime) {
        Some(m) => Some(TimePoint { millis: m }),
        None => None,
    }
}

} // verus!
