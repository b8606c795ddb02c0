//! Instants in UTC, and their conversions to and from epoch values and calendar parts.
use vstd::prelude::*;

use time::Month;

use crate::calendar::{
    days_from_unix_epoch, days_in_month, div_toward_zero, is_unix_nanos_in_range,
    is_unix_seconds_in_range, lemma_valid_date_days, MAX_YEAR, MIN_YEAR, NANOS_PER_SECOND,
    SECONDS_PER_DAY, UNIX_EPOCH_JULIAN_DAY,
};
use crate::conversions;
use crate::errors::{CalendarField, Conversion, EpochError, Result};
use crate::utc::{
    checked_unix_nanos, format_utc, julian_day_of_date, month_number, now_unix_nanos,
    time_of_day, unix_seconds_to_nanos, utc_text,
};

verus! {

/// The resolution of an epoch value.
#[derive(Debug, Clone, Copy, PartialEq, Eq, Structural)]
pub enum Unit {
    Seconds,
    Milliseconds,
    Microseconds,
    Nanoseconds,
}

/// The parts that make up a date/time.
///
/// The three sub-second parts are added together, each in its own unit; they are not
/// limited to 999 one by one.
#[derive(Debug, Default, Clone, Copy, PartialEq, Eq, Structural)]
pub struct DateTimeParts {
    pub year: i32,
    pub month: u8,
    pub day: u8,
    pub hour: u8,
    pub minute: u8,
    pub second: u8,
    pub millisecond: u32,
    pub microsecond: u32,
    pub nanosecond: u32,
}

/// The nanoseconds that the sub-second parts add up to, or the first step of the sum that
/// leaves the range of `u32`.
pub open spec fn subsecond_nanos(p: DateTimeParts) -> core::result::Result<int, EpochError> {
    let ms_ns = p.millisecond * 1_000_000;
    let us_ns = p.microsecond * 1_000;
    if ms_ns > u32::MAX {
        Err(
            EpochError::NumericPrecision {
                operation: Conversion::MillisToNanosU32,
                value: p.millisecond as i128,
            },
        )
    } else if us_ns > u32::MAX {
        Err(
            EpochError::NumericPrecision {
                operation: Conversion::MicrosToNanosU32,
                value: p.microsecond as i128,
            },
        )
    } else if ms_ns + us_ns > u32::MAX {
        Err(
            EpochError::NumericPrecision {
                operation: Conversion::SubsecondSum,
                value: (ms_ns + us_ns) as i128,
            },
        )
    } else if ms_ns + us_ns + p.nanosecond > u32::MAX {
        Err(
            EpochError::NumericPrecision {
                operation: Conversion::SubsecondSum,
                value: (ms_ns + us_ns + p.nanosecond) as i128,
            },
        )
    } else {
        Ok(ms_ns + us_ns + p.nanosecond)
    }
}

/// The error for a calendar `field` whose `value` is out of range.
pub open spec fn calendar_error(field: CalendarField, value: int) -> EpochError {
    EpochError::IllegalCalendarField { field, value: value as i128 }
}

/// The instant, in nanoseconds since the epoch, that the parts name in UTC, or the first
/// check that they fail: the month, the date, the sub-second sum, then the time of day.
pub open spec fn parts_to_instant(p: DateTimeParts) -> core::result::Result<int, EpochError> {
    if !(1 <= p.month <= 12) {
        Err(calendar_error(CalendarField::Month, p.month as int))
    } else if !(MIN_YEAR <= p.year <= MAX_YEAR) {
        Err(calendar_error(CalendarField::Year, p.year as int))
    } else if !(1 <= p.day <= days_in_month(p.year as int, p.month as int)) {
        Err(calendar_error(CalendarField::Day, p.day as int))
    } else {
        match subsecond_nanos(p) {
            Err(e) => Err(e),
            Ok(fraction) => if p.hour >= 24 {
                Err(calendar_error(CalendarField::Hour, p.hour as int))
            } else if p.minute >= 60 {
                Err(calendar_error(CalendarField::Minute, p.minute as int))
            } else if p.second >= 60 {
                Err(calendar_error(CalendarField::Second, p.second as int))
            } else if fraction >= NANOS_PER_SECOND {
                Err(calendar_error(CalendarField::FractionOfSecond, fraction))
            } else {
                Ok(
                    days_from_unix_epoch(p.year as int, p.month as int, p.day as int)
                        * SECONDS_PER_DAY * NANOS_PER_SECOND + ((p.hour * 60 + p.minute) * 60
                        + p.second) * NANOS_PER_SECOND + fraction,
                )
            },
        }
    }
}

impl DateTimeParts {
    /// Computes the total number of nanoseconds from summing the millisecond, microsecond,
    /// and nanosecond parts.
    pub fn total_ns(&self) -> (r: Result<u32>)
        ensures
            match r {
                Ok(total) => subsecond_nanos(*self) == Ok::<int, EpochError>(total as int),
                Err(e) => subsecond_nanos(*self) == Err::<int, EpochError>(e),
            },
    {
        let ms_ns = conversions::ms_to_ns_u32(self.millisecond)?;
        let us_ns = conversions::us_to_ns_u32(self.microsecond)?;
        let partial = match ms_ns.checked_add(us_ns) {
            Some(sum) => sum,
            None => {
                return Err(
                    EpochError::numeric_precision(
                        Conversion::SubsecondSum,
                        ms_ns as i128 + us_ns as i128,
                    ),
                );
            },
        };
        match partial.checked_add(self.nanosecond) {
            Some(sum) => Ok(sum),
            None => Err(
                EpochError::numeric_precision(
                    Conversion::SubsecondSum,
                    partial as i128 + self.nanosecond as i128,
                ),
            ),
        }
    }
}

/// Converts an integral month value into a `Month`.
fn parse_month(value: u8) -> (r: Result<Month>)
    ensures
        1 <= value <= 12 ==> r is Ok && month_number(r->Ok_0) == value,
        !(1 <= value <= 12) ==> r == Err::<Month, EpochError>(
            calendar_error(CalendarField::Month, value as int),
        ),
{
    match value {
        1 => Ok(Month::January),
        2 => Ok(Month::February),
        3 => Ok(Month::March),
        4 => Ok(Month::April),
        5 => Ok(Month::May),
        6 => Ok(Month::June),
        7 => Ok(Month::July),
        8 => Ok(Month::August),
        9 => Ok(Month::September),
        10 => Ok(Month::October),
        11 => Ok(Month::November),
        12 => Ok(Month::December),
        i => Err(EpochError::IllegalCalendarField { field: CalendarField::Month, value: i as i128 }),
    }
}

/// The instant that a count of whole seconds names, or why there is none.
pub open spec fn instant_from_seconds(s: i64) -> core::result::Result<int, EpochError> {
    if is_unix_seconds_in_range(s as int) {
        Ok(s * NANOS_PER_SECOND)
    } else {
        Err(EpochError::OutOfRange { unit: Unit::Seconds, value: s as i128 })
    }
}

/// The instant that a count of nanoseconds names, or why there is none.
pub open spec fn instant_from_nanos(ns: i128) -> core::result::Result<int, EpochError> {
    if is_unix_nanos_in_range(ns as int) {
        Ok(ns as int)
    } else {
        Err(EpochError::OutOfRange { unit: Unit::Nanoseconds, value: ns })
    }
}

/// The instant that a count of milliseconds names, or why there is none.
pub open spec fn instant_from_millis(ms: i128) -> core::result::Result<int, EpochError> {
    if i128::MIN <= ms * 1_000_000 <= i128::MAX {
        instant_from_nanos((ms * 1_000_000) as i128)
    } else {
        Err(
            EpochError::NumericPrecision { operation: Conversion::MillisToNanosI128, value: ms },
        )
    }
}

/// The instant that a count of microseconds names, or why there is none.
pub open spec fn instant_from_micros(us: i128) -> core::result::Result<int, EpochError> {
    if i128::MIN <= us * 1_000 <= i128::MAX {
        instant_from_nanos((us * 1_000) as i128)
    } else {
        Err(
            EpochError::NumericPrecision { operation: Conversion::MicrosToNanosI128, value: us },
        )
    }
}

/// A count of whole seconds within the supported years names an epoch, which gives the
/// same count back as seconds.
pub proof fn lemma_seconds_round_trip(s: i64)
    requires
        is_unix_seconds_in_range(s as int),
    ensures
        instant_from_seconds(s) == Ok::<int, EpochError>(s * NANOS_PER_SECOND),
        div_toward_zero(s * NANOS_PER_SECOND, NANOS_PER_SECOND as int) == s,
{
    assert((s * NANOS_PER_SECOND) / (NANOS_PER_SECOND as int) == s) by (nonlinear_arith);
    assert(((-s) * NANOS_PER_SECOND) / (NANOS_PER_SECOND as int) == -s) by (nonlinear_arith);
}

/// A count of nanoseconds within the supported years names an epoch that is that very
/// count.
pub proof fn lemma_nanos_round_trip(ns: i128)
    requires
        is_unix_nanos_in_range(ns as int),
    ensures
        instant_from_nanos(ns) == Ok::<int, EpochError>(ns as int),
{
}

/// The milliseconds of the epoch that a count of nanoseconds names are that count divided
/// by 1_000_000 and rounded toward zero, never away from it.
pub proof fn lemma_nanos_to_millis_truncates(ns: i128)
    requires
        is_unix_nanos_in_range(ns as int),
    ensures
        instant_from_nanos(ns) == Ok::<int, EpochError>(ns as int),
        ns >= 0 ==> div_toward_zero(ns as int, 1_000_000) * 1_000_000 <= ns
            < div_toward_zero(ns as int, 1_000_000) * 1_000_000 + 1_000_000,
        ns < 0 ==> div_toward_zero(ns as int, 1_000_000) * 1_000_000 - 1_000_000 < ns
            <= div_toward_zero(ns as int, 1_000_000) * 1_000_000,
{
}

/// A count of milliseconds whose nanoseconds lie within the supported years names the
/// epoch of exactly those nanoseconds.
pub proof fn lemma_millis_widen_exactly(ms: i128)
    requires
        is_unix_nanos_in_range(ms * 1_000_000),
    ensures
        instant_from_millis(ms) == Ok::<int, EpochError>(ms * 1_000_000),
{
}

/// The instant `delta` nanoseconds after `nanos` (before it for a negative `delta`), or
/// why there is none; a sum beyond `i128` is reported at the bound it passed.
pub open spec fn shifted_instant(nanos: int, delta: int) -> core::result::Result<
    int,
    EpochError,
> {
    if nanos + delta > i128::MAX {
        Err(EpochError::OutOfRange { unit: Unit::Nanoseconds, value: i128::MAX })
    } else if nanos + delta < i128::MIN {
        Err(EpochError::OutOfRange { unit: Unit::Nanoseconds, value: i128::MIN })
    } else {
        instant_from_nanos((nanos + delta) as i128)
    }
}

/// Whether `r` holds the epoch of instant `expected`, or the same error.
pub open spec fn same_outcome(
    r: Result<Epoch>,
    expected: core::result::Result<int, EpochError>,
) -> bool {
    match r {
        Ok(e) => expected == Ok::<int, EpochError>(e@),
        Err(err) => expected == Err::<int, EpochError>(err),
    }
}

/// A point in time in UTC, held as nanoseconds since 1970-01-01T00:00:00Z and always
/// within the years -9999 to 9999.
#[derive(Debug, Clone, Copy, PartialEq, Eq, Structural)]
pub struct Epoch {
    nanos: i128,
}

impl View for Epoch {
    type V = int;

    /// The nanoseconds since the Unix epoch.
    closed spec fn view(&self) -> int {
        self.nanos as int
    }
}

impl Epoch {
    #[verifier::type_invariant]
    spec fn in_range(self) -> bool {
        is_unix_nanos_in_range(self.nanos as int)
    }

    /// Creates a new Epoch from DateTimeParts
    pub fn from_parts(parts: DateTimeParts) -> (r: Result<Epoch>)
        ensures
            same_outcome(r, parts_to_instant(parts)),
    {
        let month = parse_month(parts.month)?;
        let julian = match julian_day_of_date(parts.year, month, parts.day) {
            Ok(j) => j,
            Err(_) => {
                if parts.year < MIN_YEAR || parts.year > MAX_YEAR {
                    return Err(
                        EpochError::IllegalCalendarField {
                            field: CalendarField::Year,
                            value: parts.year as i128,
                        },
                    );
                }
                return Err(
                    EpochError::IllegalCalendarField {
                        field: CalendarField::Day,
                        value: parts.day as i128,
                    },
                );
            },
        };
        let fraction = parts.total_ns()?;
        let (hour, minute, second, nanosecond) = match time_of_day(
            parts.hour,
            parts.minute,
            parts.second,
            fraction,
        ) {
            Ok(t) => t,
            Err(_) => {
                let (field, value) = if parts.hour >= 24 {
                    (CalendarField::Hour, parts.hour as i128)
                } else if parts.minute >= 60 {
                    (CalendarField::Minute, parts.minute as i128)
                } else if parts.second >= 60 {
                    (CalendarField::Second, parts.second as i128)
                } else {
                    (CalendarField::FractionOfSecond, fraction as i128)
                };
                return Err(EpochError::IllegalCalendarField { field, value });
            },
        };
        proof {
            lemma_valid_date_days(parts.year as int, parts.month as int, parts.day as int);
        }
        let days = (julian - UNIX_EPOCH_JULIAN_DAY) as i128;
        let seconds_of_day = (hour as i128 * 60 + minute as i128) * 60 + second as i128;
        let nanos = (days * SECONDS_PER_DAY + seconds_of_day) * NANOS_PER_SECOND
            + nanosecond as i128;
        Ok(Epoch { nanos })
    }

    /// Creates an epoch from seconds
    pub fn from_epoch_s(epoch_s: i64) -> (r: Result<Epoch>)
        ensures
            same_outcome(r, instant_from_seconds(epoch_s)),
    {
        match unix_seconds_to_nanos(epoch_s) {
            Ok(nanos) => Ok(Epoch { nanos }),
            Err(_) => Err(EpochError::OutOfRange { unit: Unit::Seconds, value: epoch_s as i128 }),
        }
    }

    /// Creates an epoch from milliseconds
    pub fn from_epoch_ms(epoch_ms: i128) -> (r: Result<Epoch>)
        ensures
            same_outcome(r, instant_from_millis(epoch_ms)),
    {
        Epoch::from_epoch_ns(conversions::ms_to_ns_i128(epoch_ms)?)
    }

    /// Creates an epoch from microseconds
    pub fn from_epoch_us(epoch_us: i128) -> (r: Result<Epoch>)
        ensures
            same_outcome(r, instant_from_micros(epoch_us)),
    {
        Epoch::from_epoch_ns(conversions::us_to_ns_i128(epoch_us)?)
    }

    /// Creates an epoch from nanoseconds
    pub fn from_epoch_ns(epoch_ns: i128) -> (r: Result<Epoch>)
        ensures
            same_outcome(r, instant_from_nanos(epoch_ns)),
    {
        match checked_unix_nanos(epoch_ns) {
            Ok(nanos) => Ok(Epoch { nanos }),
            Err(_) => Err(EpochError::OutOfRange { unit: Unit::Nanoseconds, value: epoch_ns }),
        }
    }

    /// Shifts the epoch later by a duration in nanoseconds, earlier where it is negative.
    pub fn checked_add_nanos(&self, delta: i128) -> (r: Result<Epoch>)
        ensures
            same_outcome(r, shifted_instant(self@, delta as int)),
    {
        match self.nanos.checked_add(delta) {
            Some(nanos) => Epoch::from_epoch_ns(nanos),
            None => {
                let bound = if delta > 0 {
                    i128::MAX
                } else {
                    i128::MIN
                };
                Err(EpochError::OutOfRange { unit: Unit::Nanoseconds, value: bound })
            },
        }
    }

    /// Shifts the epoch earlier by a duration in nanoseconds, later where it is negative.
    pub fn checked_sub_nanos(&self, delta: i128) -> (r: Result<Epoch>)
        ensures
            same_outcome(r, shifted_instant(self@, -delta)),
    {
        match self.nanos.checked_sub(delta) {
            Some(nanos) => Epoch::from_epoch_ns(nanos),
            None => {
                let bound = if delta < 0 {
                    i128::MAX
                } else {
                    i128::MIN
                };
                Err(EpochError::OutOfRange { unit: Unit::Nanoseconds, value: bound })
            },
        }
    }

    /// Returns the epoch as whole seconds, rounded toward zero
    pub fn epoch_s(&self) -> (r: i64)
        ensures
            r == div_toward_zero(self@, NANOS_PER_SECOND as int),
    {
        proof {
            use_type_invariant(self);
        }
        // The divisor is a non-zero constant, so the division always succeeds.
        match self.nanos.checked_div(NANOS_PER_SECOND) {
            Some(s) => s as i64,
            None => 0,
        }
    }

    /// Returns the epoch as milliseconds, rounded toward zero
    pub fn epoch_ms(&self) -> (r: Result<i128>)
        ensures
            r matches Ok(ms) && ms == div_toward_zero(self@, 1_000_000),
    {
        conversions::ns_to_ms_i128(self.nanos)
    }

    /// Returns the epoch as microseconds, rounded toward zero
    pub fn epoch_us(&self) -> (r: Result<i128>)
        ensures
            r matches Ok(us) && us == div_toward_zero(self@, 1_000),
    {
        conversions::ns_to_us_i128(self.nanos)
    }

    /// Returns the epoch as nanoseconds
    pub fn epoch_ns(&self) -> (r: i128)
        ensures
            r == self@,
    {
        self.nanos
    }

    /// Formats the epoch as a date/time in UTC
    pub fn fmt(&self) -> (r: String)
        ensures
            r@ == utc_text(self@),
    {
        proof {
            use_type_invariant(self);
        }
        format_utc(self.nanos)
    }
}

impl TryFrom<DateTimeParts> for Epoch {
    type Error = EpochError;

    /// Attempts to convert DateTimeParts into an Epoch
    fn try_from(parts: DateTimeParts) -> (r: Result<Epoch>)
        ensures
            same_outcome(r, parts_to_instant(parts)),
    {
        Epoch::from_parts(parts)
    }
}

impl vstd::std_specs::convert::TryFromSpecImpl<DateTimeParts> for Epoch {
    open spec fn obeys_try_from_spec() -> bool {
        true
    }

    closed spec fn try_from_spec(parts: DateTimeParts) -> Result<Epoch> {
        match parts_to_instant(parts) {
            Ok(nanos) => Ok(Epoch { nanos: nanos as i128 }),
            Err(e) => Err(e),
        }
    }
}

impl Default for Epoch {
    /// Returns the current epoch
    fn default() -> (r: Self)
        ensures
            is_unix_nanos_in_range(r@),
    {
        Epoch { nanos: now_unix_nanos() }
    }
}

} // verus!
