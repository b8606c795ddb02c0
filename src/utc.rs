//! What the library takes from the `time` crate: range checks of Unix timestamps, the
//! validation of calendar dates and times of day, the text of an instant and the clock.
use vstd::prelude::*;

use time::error::ComponentRange;
use time::{Date, Month, OffsetDateTime, Time};

use crate::calendar::{
    is_unix_nanos_in_range, is_unix_seconds_in_range, is_valid_date, is_valid_time, julian_day,
    NANOS_PER_SECOND,
};

verus! {

/// The error that `time` reports for a component outside its range.
#[verifier::external_type_specification]
#[verifier::external_body]
pub struct ExComponentRange(ComponentRange);

/// A month of the year, January to December.
#[verifier::external_type_specification]
pub struct ExMonth(Month);

/// The number of a month, from 1 for January to 12 for December.
pub open spec fn month_number(month: Month) -> int {
    match month {
        Month::January => 1,
        Month::February => 2,
        Month::March => 3,
        Month::April => 4,
        Month::May => 5,
        Month::June => 6,
        Month::July => 7,
        Month::August => 8,
        Month::September => 9,
        Month::October => 10,
        Month::November => 11,
        Month::December => 12,
    }
}

/// The text that `time` gives an instant in UTC, given in nanoseconds since the epoch.
pub uninterp spec fn utc_text(nanos: int) -> Seq<char>;

/// Relies on `OffsetDateTime::from_unix_timestamp`, which accepts a timestamp exactly when
/// it lies between those of -9999-01-01 00:00:00 and 9999-12-31 23:59:59 UTC, and on
/// `OffsetDateTime::unix_timestamp_nanos`, which reads the instant back in nanoseconds.
#[verifier::external_body]
pub(crate) fn unix_seconds_to_nanos(seconds: i64) -> (r: Result<i128, ComponentRange>)
    ensures
        r is Ok <==> is_unix_seconds_in_range(seconds as int),
        r is Ok ==> r->Ok_0 == seconds * NANOS_PER_SECOND,
{
    match OffsetDateTime::from_unix_timestamp(seconds) {
        Ok(datetime) => Ok(datetime.unix_timestamp_nanos()),
        Err(e) => Err(e),
    }
}

/// Relies on `OffsetDateTime::from_unix_timestamp_nanos`, which accepts a timestamp exactly
/// when its whole seconds, rounded down, are accepted by `from_unix_timestamp`, and on
/// `OffsetDateTime::unix_timestamp_nanos`, which reads the instant back.
#[verifier::external_body]
pub(crate) fn checked_unix_nanos(nanos: i128) -> (r: Result<i128, ComponentRange>)
    ensures
        r is Ok <==> is_unix_nanos_in_range(nanos as int),
        r is Ok ==> r->Ok_0 == nanos,
{
    match OffsetDateTime::from_unix_timestamp_nanos(nanos) {
        Ok(datetime) => Ok(datetime.unix_timestamp_nanos()),
        Err(e) => Err(e),
    }
}

/// Relies on `Date::from_calendar_date`, which accepts a date of the proleptic Gregorian
/// calendar with a year from -9999 to 9999 (`time` is built without its `large-dates`
/// feature) and a day from 1 to the length of the month, and on `Date::to_julian_day`,
/// which gives its Julian day number.
#[verifier::external_body]
pub(crate) fn julian_day_of_date(year: i32, month: Month, day: u8) -> (r: Result<
    i32,
    ComponentRange,
>)
    ensures
        r is Ok <==> is_valid_date(year as int, month_number(month), day as int),
        r is Ok ==> r->Ok_0 == julian_day(year as int, month_number(month), day as int),
{
    match Date::from_calendar_date(year, month, day) {
        Ok(date) => Ok(date.to_julian_day()),
        Err(e) => Err(e),
    }
}

/// Relies on `Time::from_hms_nano`, which accepts an hour below 24, a minute and a second
/// below 60 and a nanosecond below 1_000_000_000, and on `Time::as_hms_nano`, which gives
/// the four fields back.
#[verifier::external_body]
pub(crate) fn time_of_day(hour: u8, minute: u8, second: u8, nanosecond: u32) -> (r: Result<
    (u8, u8, u8, u32),
    ComponentRange,
>)
    ensures
        r is Ok <==> is_valid_time(hour as int, minute as int, second as int, nanosecond as int),
        r is Ok ==> r->Ok_0 == (hour, minute, second, nanosecond),
{
    match Time::from_hms_nano(hour, minute, second, nanosecond) {
        Ok(time) => Ok(time.as_hms_nano()),
        Err(e) => Err(e),
    }
}

/// Relies on the `Display` of `OffsetDateTime`, applied to the instant that
/// `OffsetDateTime::from_unix_timestamp_nanos` builds in UTC: its text depends on the
/// instant alone. Within the range that `requires` states, the error arm is never taken.
#[verifier::external_body]
pub(crate) fn format_utc(nanos: i128) -> (r: String)
    requires
        is_unix_nanos_in_range(nanos as int),
    ensures
        r@ == utc_text(nanos as int),
{
    match OffsetDateTime::from_unix_timestamp_nanos(nanos) {
        Ok(datetime) => datetime.to_string(),
        Err(e) => e.to_string(),
    }
}

/// Relies on `OffsetDateTime::now_utc`, which reads the system clock; any instant that it
/// returns lies within the supported years.
#[verifier::external_body]
pub(crate) fn now_unix_nanos() -> (r: i128)
    ensures
        is_unix_nanos_in_range(r as int),
{
    OffsetDateTime::now_utc().unix_timestamp_nanos()
}

} // verus!
