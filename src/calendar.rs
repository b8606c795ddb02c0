//! The proleptic Gregorian calendar, as a mathematical model of dates and Unix time.
use vstd::prelude::*;

verus! {

/// Nanoseconds in one second.
pub const NANOS_PER_SECOND: i128 = 1_000_000_000;

/// Seconds in one day; Unix time has no leap seconds.
pub const SECONDS_PER_DAY: i128 = 86_400;

/// The earliest year that a date may have.
pub const MIN_YEAR: i32 = -9999;

/// The latest year that a date may have.
pub const MAX_YEAR: i32 = 9999;

/// The Unix timestamp, in seconds, of -9999-01-01 00:00:00 UTC.
pub const MIN_UNIX_SECONDS: i64 = -377_705_116_800;

/// The Unix timestamp, in seconds, of 9999-12-31 23:59:59 UTC.
pub const MAX_UNIX_SECONDS: i64 = 253_402_300_799;

/// The Julian day number of 1970-01-01.
pub const UNIX_EPOCH_JULIAN_DAY: i32 = 2_440_588;

pub open spec fn is_leap_year(year: int) -> bool {
    year % 4 == 0 && (year % 100 != 0 || year % 400 == 0)
}

/// The number of days in `month` (1 to 12) of `year`.
pub open spec fn days_in_month(year: int, month: int) -> int {
    if month == 2 {
        if is_leap_year(year) {
            29
        } else {
            28
        }
    } else if month == 4 || month == 6 || month == 9 || month == 11 {
        30
    } else {
        31
    }
}

/// The number of days of `year` that come before the first of `month`.
pub open spec fn days_before_month(year: int, month: int) -> int
    decreases month,
{
    if month <= 1 {
        0
    } else {
        days_before_month(year, month - 1) + days_in_month(year, month - 1)
    }
}

/// The number of leap years from year 1 up to, but not including, `year` (negative
/// below year 1); only differences of it are used.
pub open spec fn leap_years_before(year: int) -> int {
    (year - 1) / 4 - (year - 1) / 100 + (year - 1) / 400
}

/// The number of days from 1970-01-01 to the given date: negative before it.
pub open spec fn days_from_unix_epoch(year: int, month: int, day: int) -> int {
    365 * (year - 1970) + (leap_years_before(year) - leap_years_before(1970))
        + days_before_month(year, month) + (day - 1)
}

/// The Julian day number of the given date: the days since -4713-11-24.
pub open spec fn julian_day(year: int, month: int, day: int) -> int {
    days_from_unix_epoch(year, month, day) + UNIX_EPOCH_JULIAN_DAY
}

/// Whether year, month and day name a date within the supported years.
pub open spec fn is_valid_date(year: int, month: int, day: int) -> bool {
    &&& MIN_YEAR <= year <= MAX_YEAR
    &&& 1 <= month <= 12
    &&& 1 <= day <= days_in_month(year, month)
}

/// Whether the fields name a time of day.
pub open spec fn is_valid_time(hour: int, minute: int, second: int, nanosecond: int) -> bool {
    &&& 0 <= hour < 24
    &&& 0 <= minute < 60
    &&& 0 <= second < 60
    &&& 0 <= nanosecond < NANOS_PER_SECOND
}

/// Whether a Unix timestamp in seconds lies within the supported years.
pub open spec fn is_unix_seconds_in_range(seconds: int) -> bool {
    MIN_UNIX_SECONDS <= seconds <= MAX_UNIX_SECONDS
}

/// Whether a Unix timestamp in nanoseconds lies within the supported years: its whole
/// seconds, rounded down, do.
pub open spec fn is_unix_nanos_in_range(nanos: int) -> bool {
    MIN_UNIX_SECONDS * NANOS_PER_SECOND <= nanos < (MAX_UNIX_SECONDS + 1) * NANOS_PER_SECOND
}

/// Integer division that rounds toward zero, for a positive divisor.
pub open spec fn div_toward_zero(n: int, d: int) -> int {
    if n >= 0 {
        n / d
    } else {
        -((-n) / d)
    }
}

/// The days before each month, as a table; one more from March on in a leap year.
pub proof fn lemma_days_before_month(year: int, month: int)
    requires
        1 <= month <= 12,
    ensures
        days_before_month(year, month) == (if is_leap_year(year) && month > 2 {
            1int
        } else {
            0
        }) + if month == 1 {
            0int
        } else if month == 2 {
            31
        } else if month == 3 {
            59
        } else if month == 4 {
            90
        } else if month == 5 {
            120
        } else if month == 6 {
            151
        } else if month == 7 {
            181
        } else if month == 8 {
            212
        } else if month == 9 {
            243
        } else if month == 10 {
            273
        } else if month == 11 {
            304
        } else {
            334
        },
{
    reveal_with_fuel(days_before_month, 12);
}

/// Every valid date lies between the first and the last day of the supported years, whose
/// midnights are the bounds of the supported Unix timestamps.
pub proof fn lemma_valid_date_days(year: int, month: int, day: int)
    requires
        is_valid_date(year, month, day),
    ensures
        MIN_UNIX_SECONDS == days_from_unix_epoch(MIN_YEAR as int, 1, 1) * SECONDS_PER_DAY,
        MAX_UNIX_SECONDS + 1 == (days_from_unix_epoch(MAX_YEAR as int, 12, 31) + 1) * SECONDS_PER_DAY,
        days_from_unix_epoch(MIN_YEAR as int, 1, 1) <= days_from_unix_epoch(year, month, day),
        days_from_unix_epoch(year, month, day) <= days_from_unix_epoch(MAX_YEAR as int, 12, 31),
{
    lemma_days_before_month(year, month);
    lemma_days_before_month(MIN_YEAR as int, 1);
    lemma_days_before_month(MAX_YEAR as int, 12);
}

} // verus!
