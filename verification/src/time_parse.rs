//! Reading user-supplied start and end times: a base-ten count of epoch
//! milliseconds, or a "YYYY-MM-DD HH:MM:SS" wall-clock string read as UTC.
use vstd::prelude::*;

use crate::numstr::spec_parse_i64;
use crate::numstr::parse_i64;

verus! {

/// The one way time parsing fails: neither reading applies.
#[derive(Copy, Clone, PartialEq, Eq, Structural, Debug)]
pub enum TimeParseError {
    InvalidTimeFormat,
}

/// Whether a count of epoch milliseconds lies inside the calendar range that
/// the date library can represent.
pub uninterp spec fn epoch_ms_in_range(ms: int) -> bool;

/// The epoch milliseconds a "YYYY-MM-DD HH:MM:SS" string denotes in UTC, or
/// None when the string does not match that shape.
pub uninterp spec fn civil_parse_ms(s: Seq<char>) -> Option<i64>;

/// Relies on chrono::DateTime::<Utc>::from_timestamp_millis: it returns Some
/// exactly on an in-range number of milliseconds, and the result round-trips
/// through timestamp_millis(), so the count comes back unchanged.
#[verifier::external_body]
fn validate_epoch_ms(ts: i64) -> (r: Option<i64>)
    ensures
        (r is Some) == epoch_ms_in_range(ts as int),
        r matches Some(m) ==> m == ts,
{
    chrono::DateTime::<chrono::Utc>::from_timestamp_millis(ts).map(|d| d.timestamp_millis())
}

/// Relies on chrono::NaiveDateTime::parse_from_str with the
/// "%Y-%m-%d %H:%M:%S" format, read as UTC through and_utc: the outcome
/// depends on the input characters alone.
#[verifier::external_body]
fn parse_civil_utc_ms(s: &str) -> (r: Option<i64>)
    ensures
        r == civil_parse_ms(s@),
{
    match chrono::NaiveDateTime::parse_from_str(s, "%Y-%m-%d %H:%M:%S") {
        Ok(n) => Some(n.and_utc().timestamp_millis()),
        Err(_) => None,
    }
}

/// What `parse_date_time` yields: the numeric reading wins when the string
/// is an integer denoting a representable instant; otherwise the wall-clock
/// reading is tried.
pub open spec fn spec_parse_date_time(s: Seq<char>) -> Option<i64> {
    match spec_parse_i64(s) {
        Some(ts) => {
            if epoch_ms_in_range(ts as int) {
                Some(ts)
            } else {
                civil_parse_ms(s)
            }
        },
        None => civil_parse_ms(s),
    }
}

/// Turns a user-typed time into epoch milliseconds UTC. A base-ten integer
/// is taken as exactly that count of epoch milliseconds, provided it denotes
/// a representable instant; failing that, a "YYYY-MM-DD HH:MM:SS" string is
/// read as UTC; anything else is `InvalidTimeFormat`.
pub fn parse_date_time(date_string: &str) -> (r: Result<i64, TimeParseError>)
    ensures
        r matches Ok(ms) ==> spec_parse_date_time(date_string@) == Some(ms),
        r is Err ==> spec_parse_date_time(date_string@) is None && r == Err::<
            i64,
            TimeParseError,
        >(TimeParseError::InvalidTimeFormat),
{
    match parse_i64(date_string) {
        Some(ts) => {
            match validate_epoch_ms(ts) {
                Some(ms) => {
                    return Ok(ms);
                },
                None => {},
            }
        },
        None => {},
    }
    match parse_civil_utc_ms(date_string) {
        Some(ms) => Ok(ms),
        None => Err(TimeParseError::InvalidTimeFormat),
    }
}

} // verus!
