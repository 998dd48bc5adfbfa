//! Reading the times that the store keeps as text.

use vstd::prelude::*;

verus! {

/// The form in which the store writes a time.
pub const TIMESTAMP_FORMAT: &'static str = "%Y-%m-%d %H:%M:%S";

/// The time that `chrono` reads from `text` under `format`, taken as UTC, in
/// seconds since the epoch; `None` where the text does not fit the format.
pub uninterp spec fn datetime_seconds(text: Seq<char>, format: Seq<char>) -> Option<i64>;

/// The time that a stored text stands for.
pub open spec fn stored_time(text: Seq<char>) -> Option<i64> {
    datetime_seconds(text, TIMESTAMP_FORMAT@)
}

/// Parses a date and time with `chrono::NaiveDateTime::parse_from_str`, takes
/// it as UTC and gives its Unix timestamp.
#[verifier::external_body]
pub(crate) fn parse_datetime(text: &str, format: &str) -> (seconds: Option<i64>)
    ensures
        seconds == datetime_seconds(text@, format@),
{
    chrono::NaiveDateTime::parse_from_str(text, format).ok().map(|t| t.and_utc().timestamp())
}

/// Reads a time as the store writes it.
pub fn parse_stored_time(text: &str) -> (seconds: Option<i64>)
    ensures
        seconds == stored_time(text@),
{
    parse_datetime(text, TIMESTAMP_FORMAT)
}

} // verus!
