//! What the command line asks for, and the conversion it leads to.
use vstd::prelude::*;

use crate::calendar::{div_toward_zero, is_unix_nanos_in_range, is_unix_seconds_in_range, NANOS_PER_SECOND};
use crate::epoch::{
    instant_from_micros, instant_from_millis, instant_from_nanos, parts_to_instant,
    same_outcome, DateTimeParts, Epoch, Unit,
};
use crate::errors::{CalendarField, EpochError, Result};
use crate::epoch::calendar_error;

verus! {

/// The arguments of the command line.
#[derive(Debug)]
pub struct Cli {
    /// An epoch of seconds, milliseconds, microseconds or nanoseconds, to convert into a
    /// date and time.
    pub epoch: Option<i128>,
    /// Sets the time unit to milliseconds.
    pub milliseconds: bool,
    /// Sets the time unit to microseconds.
    pub microseconds: bool,
    /// Sets the time unit to nanoseconds.
    pub nanoseconds: bool,
    /// Year, month and day, then optionally hour, minute, second, millisecond, microsecond
    /// and nanosecond, to convert into an epoch.
    pub date_time_parts: Option<Vec<i64>>,
}

/// What a run gives: an epoch value, or an instant to show as a date and time.
#[derive(Debug, Clone, Copy, PartialEq, Eq, Structural)]
pub enum Output {
    Timestamp(i128),
    DateTime(Epoch),
}

/// The unit that the flags select: the first of milliseconds, microseconds and
/// nanoseconds that is set, else seconds.
pub open spec fn selected_unit(cli: &Cli) -> Unit {
    if cli.milliseconds {
        Unit::Milliseconds
    } else if cli.microseconds {
        Unit::Microseconds
    } else if cli.nanoseconds {
        Unit::Nanoseconds
    } else {
        Unit::Seconds
    }
}

/// An instant, given in nanoseconds, as a count of `unit`, rounded toward zero.
pub open spec fn value_in_unit(nanos: int, unit: Unit) -> int {
    match unit {
        Unit::Seconds => div_toward_zero(nanos, NANOS_PER_SECOND as int),
        Unit::Milliseconds => div_toward_zero(nanos, 1_000_000),
        Unit::Microseconds => div_toward_zero(nanos, 1_000),
        Unit::Nanoseconds => nanos,
    }
}

/// The instant that an epoch value in `unit` names, or why there is none.
pub open spec fn instant_in_unit(value: i128, unit: Unit) -> core::result::Result<
    int,
    EpochError,
> {
    match unit {
        Unit::Seconds => if is_unix_seconds_in_range(value as int) {
            Ok(value * NANOS_PER_SECOND)
        } else {
            Err(EpochError::OutOfRange { unit: Unit::Seconds, value })
        },
        Unit::Milliseconds => instant_from_millis(value),
        Unit::Microseconds => instant_from_micros(value),
        Unit::Nanoseconds => instant_from_nanos(value),
    }
}

/// The value at `idx`, or 0 where there is none.
pub open spec fn part_or_zero(values: Seq<i64>, idx: int) -> int {
    if idx < values.len() {
        values[idx] as int
    } else {
        0
    }
}

/// The calendar parts that a list of integers gives, or the first that is missing or does
/// not fit its field: year, month and day are required, the others default to 0.
pub open spec fn parse_parts(values: Seq<i64>) -> core::result::Result<DateTimeParts, EpochError> {
    let len = values.len() as usize;
    let hour = part_or_zero(values, 3);
    let minute = part_or_zero(values, 4);
    let second = part_or_zero(values, 5);
    let millisecond = part_or_zero(values, 6);
    let microsecond = part_or_zero(values, 7);
    let nanosecond = part_or_zero(values, 8);
    if values.len() < 1 {
        Err(EpochError::MalformedInput { index: 0, len })
    } else if !(i32::MIN <= values[0] <= i32::MAX) {
        Err(calendar_error(CalendarField::Year, values[0] as int))
    } else if values.len() < 2 {
        Err(EpochError::MalformedInput { index: 1, len })
    } else if !(0 <= values[1] <= u8::MAX) {
        Err(calendar_error(CalendarField::Month, values[1] as int))
    } else if values.len() < 3 {
        Err(EpochError::MalformedInput { index: 2, len })
    } else if !(0 <= values[2] <= u8::MAX) {
        Err(calendar_error(CalendarField::Day, values[2] as int))
    } else if !(0 <= hour <= u8::MAX) {
        Err(calendar_error(CalendarField::Hour, hour))
    } else if !(0 <= minute <= u8::MAX) {
        Err(calendar_error(CalendarField::Minute, minute))
    } else if !(0 <= second <= u8::MAX) {
        Err(calendar_error(CalendarField::Second, second))
    } else if !(0 <= millisecond <= u32::MAX) {
        Err(calendar_error(CalendarField::Millisecond, millisecond))
    } else if !(0 <= microsecond <= u32::MAX) {
        Err(calendar_error(CalendarField::Microsecond, microsecond))
    } else if !(0 <= nanosecond <= u32::MAX) {
        Err(calendar_error(CalendarField::Nanosecond, nanosecond))
    } else {
        Ok(
            DateTimeParts {
                year: values[0] as i32,
                month: values[1] as u8,
                day: values[2] as u8,
                hour: hour as u8,
                minute: minute as u8,
                second: second as u8,
                millisecond: millisecond as u32,
                microsecond: microsecond as u32,
                nanosecond: nanosecond as u32,
            },
        )
    }
}

/// The epoch value, in `unit`, of the date and time that a list of integers gives, or why
/// there is none.
pub open spec fn timestamp_from_values(values: Seq<i64>, unit: Unit) -> core::result::Result<
    int,
    EpochError,
> {
    match parse_parts(values) {
        Err(e) => Err(e),
        Ok(parts) => match parts_to_instant(parts) {
            Err(e) => Err(e),
            Ok(nanos) => Ok(value_in_unit(nanos, unit)),
        },
    }
}

impl Unit {
    /// Extracts which time base to use from the CLI. Defaults to seconds.
    pub fn from_cli(cli: &Cli) -> (r: Unit)
        ensures
            r == selected_unit(cli),
    {
        if cli.milliseconds {
            Unit::Milliseconds
        } else if cli.microseconds {
            Unit::Microseconds
        } else if cli.nanoseconds {
            Unit::Nanoseconds
        } else {
            Unit::Seconds
        }
    }
}

/// The epoch value of an instant in the given unit.
pub fn epoch_in_unit(epoch: &Epoch, unit: Unit) -> (r: Result<i128>)
    ensures
        r matches Ok(value) && value == value_in_unit(epoch@, unit),
{
    match unit {
        Unit::Seconds => Ok(epoch.epoch_s() as i128),
        Unit::Milliseconds => epoch.epoch_ms(),
        Unit::Microseconds => epoch.epoch_us(),
        Unit::Nanoseconds => Ok(epoch.epoch_ns()),
    }
}

/// The instant that an epoch value in the given unit names.
pub fn epoch_from_unit(value: i128, unit: Unit) -> (r: Result<Epoch>)
    ensures
        same_outcome(r, instant_in_unit(value, unit)),
{
    match unit {
        Unit::Seconds => {
            if value < i64::MIN as i128 || value > i64::MAX as i128 {
                return Err(EpochError::OutOfRange { unit: Unit::Seconds, value });
            }
            Epoch::from_epoch_s(value as i64)
        },
        Unit::Milliseconds => Epoch::from_epoch_ms(value),
        Unit::Microseconds => Epoch::from_epoch_us(value),
        Unit::Nanoseconds => Epoch::from_epoch_ns(value),
    }
}

/// Attempts to extract a specific value from the date/time parts. If the particular part is
/// not present, an error is returned.
pub fn get(values: &Vec<i64>, idx: usize) -> (r: Result<i64>)
    ensures
        idx < values.len() ==> r == Ok::<i64, EpochError>(values[idx as int]),
        idx >= values.len() ==> r == Err::<i64, EpochError>(
            EpochError::MalformedInput { index: idx, len: values.len() },
        ),
{
    if idx < values.len() {
        Ok(values[idx])
    } else {
        Err(EpochError::MalformedInput { index: idx, len: values.len() })
    }
}

/// The value at `idx`, or 0 where there is none.
fn get_or_zero(values: &Vec<i64>, idx: usize) -> (r: i64)
    ensures
        r == part_or_zero(values@, idx as int),
{
    if idx < values.len() {
        values[idx]
    } else {
        0
    }
}

/// Narrows a value to the `u8` of a calendar field.
fn to_u8_field(value: i64, field: CalendarField) -> (r: Result<u8>)
    ensures
        0 <= value <= u8::MAX ==> r == Ok::<u8, EpochError>(value as u8),
        !(0 <= value <= u8::MAX) ==> r == Err::<u8, EpochError>(
            calendar_error(field, value as int),
        ),
{
    if 0 <= value && value <= u8::MAX as i64 {
        Ok(value as u8)
    } else {
        Err(EpochError::IllegalCalendarField { field, value: value as i128 })
    }
}

/// Narrows a value to the `u32` of a sub-second field.
fn to_u32_field(value: i64, field: CalendarField) -> (r: Result<u32>)
    ensures
        0 <= value <= u32::MAX ==> r == Ok::<u32, EpochError>(value as u32),
        !(0 <= value <= u32::MAX) ==> r == Err::<u32, EpochError>(
            calendar_error(field, value as int),
        ),
{
    if 0 <= value && value <= u32::MAX as i64 {
        Ok(value as u32)
    } else {
        Err(EpochError::IllegalCalendarField { field, value: value as i128 })
    }
}

/// Reads calendar parts from a list of integers: year, month, day, then optionally hour,
/// minute, second, millisecond, microsecond and nanosecond.
pub fn parts_from_values(values: &Vec<i64>) -> (r: Result<DateTimeParts>)
    ensures
        match r {
            Ok(parts) => parse_parts(values@) == Ok::<DateTimeParts, EpochError>(parts),
            Err(e) => parse_parts(values@) == Err::<DateTimeParts, EpochError>(e),
        },
{
    let year = get(values, 0)?;
    if year < i32::MIN as i64 || year > i32::MAX as i64 {
        return Err(EpochError::IllegalCalendarField { field: CalendarField::Year, value: year as i128 });
    }
    let month = to_u8_field(get(values, 1)?, CalendarField::Month)?;
    let day = to_u8_field(get(values, 2)?, CalendarField::Day)?;
    let hour = to_u8_field(get_or_zero(values, 3), CalendarField::Hour)?;
    let minute = to_u8_field(get_or_zero(values, 4), CalendarField::Minute)?;
    let second = to_u8_field(get_or_zero(values, 5), CalendarField::Second)?;
    let millisecond = to_u32_field(get_or_zero(values, 6), CalendarField::Millisecond)?;
    let microsecond = to_u32_field(get_or_zero(values, 7), CalendarField::Microsecond)?;
    let nanosecond = to_u32_field(get_or_zero(values, 8), CalendarField::Nanosecond)?;
    Ok(
        DateTimeParts {
            year: year as i32,
            month,
            day,
            hour,
            minute,
            second,
            millisecond,
            microsecond,
            nanosecond,
        },
    )
}

/// Runs the CLI: converts an epoch value into a date and time, or date and time parts
/// into an epoch value, or, with neither, gives the current epoch value.
pub fn run(cli: Cli) -> (r: Result<Output>)
    ensures
        match cli.epoch {
            Some(value) => match r {
                Ok(out) => out matches Output::DateTime(e) && instant_in_unit(
                    value,
                    selected_unit(&cli),
                ) == Ok::<int, EpochError>(e@),
                Err(err) => instant_in_unit(value, selected_unit(&cli)) == Err::<int, EpochError>(
                    err,
                ),
            },
            None => match cli.date_time_parts {
                Some(values) => match r {
                    Ok(out) => out matches Output::Timestamp(t) && timestamp_from_values(
                        values@,
                        selected_unit(&cli),
                    ) == Ok::<int, EpochError>(t as int),
                    Err(err) => timestamp_from_values(values@, selected_unit(&cli)) == Err::<
                        int,
                        EpochError,
                    >(err),
                },
                None => r matches Ok(Output::Timestamp(t)) && exists|nanos: int|
                    is_unix_nanos_in_range(nanos) && t == #[trigger] value_in_unit(
                        nanos,
                        selected_unit(&cli),
                    ),
            },
        },
{
    let unit = Unit::from_cli(&cli);
    if let Some(value) = cli.epoch {
        // An epoch was given: convert it into a date and time.
        let epoch = epoch_from_unit(value, unit)?;
        Ok(Output::DateTime(epoch))
    } else if let Some(values) = cli.date_time_parts {
        // Date and time parts were given: convert them into an epoch.
        let parts = parts_from_values(&values)?;
        let epoch = Epoch::from_parts(parts)?;
        Ok(Output::Timestamp(epoch_in_unit(&epoch, unit)?))
    } else {
        // Nothing was given: take the current epoch.
        let now = Epoch::default();
        Ok(Output::Timestamp(epoch_in_unit(&now, unit)?))
    }
}

} // verus!
