//! Calendar arithmetic on UNIX timestamps, done by `chrono`.
use vstd::prelude::*;

verus! {

/// Timestamps (seconds since the UNIX epoch) that `chrono` can turn into a UTC date and
/// time: from the first second of year -262143 to the last second of year 262142, the
/// dates `NaiveDate::MIN` and `NaiveDate::MAX` of its source.
pub open spec fn in_calendar_range(timestamp: int) -> bool {
    -8_334_601_228_800 <= timestamp <= 8_210_266_876_799
}

/// Whether a timestamp lies in the calendar range.
pub fn within_calendar_range(timestamp: i64) -> (inside: bool)
    ensures inside == in_calendar_range(timestamp as int),
{
    -8_334_601_228_800 <= timestamp && timestamp <= 8_210_266_876_799
}

/// The minute of the hour (0 to 59) of a UTC timestamp.
pub open spec fn minute_of(timestamp: int) -> int {
    (timestamp % 86400) / 60 % 60
}

/// Calls `chrono::DateTime::<Utc>::from_timestamp` and `Timelike::minute`.
/// Claimed: inside the calendar range the date exists, and its minute is the number of
/// whole minutes into the day's seconds (`rem_euclid(86_400)`) modulo 60, which is how
/// chrono's source computes it. Outside the range nothing is claimed.
#[verifier::external_body]
fn chrono_minute(timestamp: i64) -> (minute: Option<u32>)
    ensures
        in_calendar_range(timestamp as int) ==> minute == Some(minute_of(timestamp as int) as u32),
{
    Some(chrono::Timelike::minute(&chrono::DateTime::from_timestamp(timestamp, 0)?))
}

/// The minute of the hour of a UTC timestamp.
pub fn utc_minute_of(timestamp: i64) -> (minute: u32)
    requires
        in_calendar_range(timestamp as int),
    ensures
        minute == minute_of(timestamp as int),
{
    match chrono_minute(timestamp) {
        Some(m) => m,
        None => 0,
    }
}

/// Calls `chrono::DateTime::<Utc>::from_timestamp`, adds `chrono::TimeDelta::days(days)`
/// and reads the timestamp back.
/// Claimed: a day is 86,400 seconds, so the result is `timestamp + days * 86_400`. The
/// start and the result lie in the calendar range, so the date exists and the addition
/// (which panics only past chrono's last date) does not panic; `TimeDelta::days` panics
/// only beyond `i64::MAX / 86_400_000` days, far above the bound here.
#[verifier::external_body]
fn chrono_plus_days(timestamp: i64, days: i64) -> (later: Option<i64>)
    requires
        in_calendar_range(timestamp as int),
        in_calendar_range(timestamp + days * 86400),
        0 <= days <= 10_000,
    ensures
        later == Some((timestamp + days * 86400) as i64),
{
    let start = chrono::DateTime::from_timestamp(timestamp, 0)?;
    Some((start + chrono::TimeDelta::days(days)).timestamp())
}

/// The UTC timestamp `days` whole days after `timestamp`.
pub fn timestamp_plus_days(timestamp: i64, days: i64) -> (later: i64)
    requires
        in_calendar_range(timestamp as int),
        in_calendar_range(timestamp + days * 86400),
        0 <= days <= 10_000,
    ensures
        later == timestamp + days * 86400,
{
    match chrono_plus_days(timestamp, days) {
        Some(t) => t,
        None => 0,
    }
}

} // verus!
