//! The crate's only view of time: parsing the timestamps that cache entries
//! and tokens carry, validating user-typed days, and reading the clock.

use vstd::prelude::*;

verus! {

/// The instant, in seconds, that a timestamp string denotes, or nothing
/// when the string does not parse as one.
pub uninterp spec fn timestamp_of(s: Seq<char>) -> Option<int>;

/// Relies on chrono's `FromStr` for `DateTime<Utc>` and on
/// `DateTime::timestamp`: both are functions of the characters alone.
#[verifier::external_body]
pub fn parse_timestamp(s: &str) -> (r: Option<i64>)
    ensures
        match r {
            Some(t) => timestamp_of(s@) == Some(t as int),
            None => timestamp_of(s@) is None,
        },
{
    match s.parse::<chrono::DateTime<chrono::Utc>>() {
        Ok(t) => Some(t.timestamp()),
        Err(_) => None,
    }
}

/// Whether a string is a well-formed Gregorian day.
pub uninterp spec fn parses_as_day(s: Seq<char>) -> bool;

/// Relies on chrono's `NaiveDate::parse_from_str` with the `%Y-%m-%e`
/// format: the result is a function of the characters alone.
#[verifier::external_body]
pub fn is_valid_day(s: &str) -> (r: bool)
    ensures
        r == parses_as_day(s@),
{
    chrono::NaiveDate::parse_from_str(s, "%Y-%m-%e").is_ok()
}

/// Relies on chrono's system clock; nothing is promised of the value, and
/// callers state what holds of every reading.
#[verifier::external_body]
pub fn now_seconds() -> i64 {
    chrono::Utc::now().timestamp()
}

} // verus!
