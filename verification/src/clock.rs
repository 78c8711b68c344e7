//! Calendar dates as seconds of Unix time.
//!
//! The conversion is chrono's and is not proved here.

use vstd::prelude::*;

verus! {

/// The seconds of Unix time at which the civil date and time of day given
/// begins in UTC; `None` where there is no such date or time of day.
pub uninterp spec fn utc_seconds(
    year: i32,
    month: u32,
    day: u32,
    hour: u32,
    minute: u32,
    second: u32,
) -> Option<i64>;

/// chrono's `TimeZone::with_ymd_and_hms` for `Utc`, whose moment
/// `DateTime::timestamp` reads as seconds of Unix time. It gives no moment
/// for a date or a time of day that does not exist, and it does not panic.
#[verifier::external_body]
pub(crate) fn utc_timestamp(
    year: i32,
    month: u32,
    day: u32,
    hour: u32,
    minute: u32,
    second: u32,
) -> (seconds: Option<i64>)
    ensures
        seconds == utc_seconds(year, month, day, hour, minute, second),
{
    chrono::TimeZone::with_ymd_and_hms(&chrono::Utc, year, month, day, hour, minute, second)
        .single()
        .map(|moment| moment.timestamp())
}

} // verus!
