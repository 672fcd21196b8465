//! What the library takes from outside itself: fresh identifiers from `uuid`,
//! the current time and the calendar from `chrono`. Nothing in this file is
//! proved; each contract restates what the called function promises.

use vstd::prelude::*;

verus! {

/// The bits that every randomly generated identifier carries: version 4 in
/// the high nibble of the seventh byte, the RFC variant `10` in the two high
/// bits of the ninth.
pub open spec fn is_random_id(id: u128) -> bool {
    id & 0x0000_0000_0000_f000_c000_0000_0000_0000u128
        == 0x0000_0000_0000_4000_8000_0000_0000_0000u128
}

/// The smallest year that `chrono` can represent in a date.
pub const MIN_YEAR: i32 = -262143;

/// The largest year that `chrono` can represent in a date.
pub const MAX_YEAR: i32 = 262142;

/// Leap years of the proleptic Gregorian calendar.
pub open spec fn is_leap_year(year: int) -> bool {
    year % 4 == 0 && (year % 100 != 0 || year % 400 == 0)
}

/// The number of days of a month, 0 for a month that does not exist.
pub open spec fn days_in_month(year: int, month: int) -> int {
    if month == 2 {
        if is_leap_year(year) { 29 } else { 28 }
    } else if month == 4 || month == 6 || month == 9 || month == 11 {
        30
    } else if 1 <= month <= 12 {
        31
    } else {
        0
    }
}

/// Whether year, month and day name a day of the calendar that `chrono` can
/// represent.
pub open spec fn is_calendar_date(year: i32, month: u32, day: u32) -> bool {
    &&& MIN_YEAR <= year <= MAX_YEAR
    &&& 1 <= month <= 12
    &&& 1 <= day <= days_in_month(year as int, month as int)
}

/// Calls `uuid::Uuid::new_v4` and returns the identifier as its 128-bit
/// big-endian number. The value is random; the contract claims only the
/// version and variant bits that `new_v4` sets on every identifier.
#[verifier::external_body]
pub(crate) fn fresh_id() -> (id: u128)
    ensures
        is_random_id(id),
{
    uuid::Uuid::new_v4().as_u128()
}

/// Calls `chrono::Utc::now` and returns the moment in microseconds since the
/// Unix epoch. The contract claims only that the moment is not before the
/// epoch, which `now` itself insists on.
#[verifier::external_body]
pub(crate) fn now_micros() -> (t: i64)
    ensures
        t >= 0,
{
    chrono::Utc::now().timestamp_micros()
}

/// Calls `chrono::NaiveDate::from_ymd_opt`, which yields a date exactly when
/// the day exists in the proleptic Gregorian calendar and the year is within
/// the range that `chrono` represents.
#[verifier::external_body]
pub(crate) fn date_exists(year: i32, month: u32, day: u32) -> (yes: bool)
    ensures
        yes == is_calendar_date(year, month, day),
{
    chrono::NaiveDate::from_ymd_opt(year, month, day).is_some()
}

} // verus!
