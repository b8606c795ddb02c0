//! The errors that conversions report.
use vstd::prelude::*;

use crate::epoch::Unit;

verus! {

/// A checked scaling or summing of time quantities.
#[derive(Debug, Clone, Copy, PartialEq, Eq, Structural)]
pub enum Conversion {
    MillisToNanosU32,
    MicrosToNanosU32,
    MillisToNanosI128,
    MicrosToNanosI128,
    NanosToMillisI128,
    NanosToMicrosI128,
    /// Summing the sub-second parts of a date and time into nanoseconds.
    SubsecondSum,
}

/// A field of a date and time as a caller supplies it.
#[derive(Debug, Clone, Copy, PartialEq, Eq, Structural)]
pub enum CalendarField {
    Year,
    Month,
    Day,
    Hour,
    Minute,
    Second,
    Millisecond,
    Microsecond,
    Nanosecond,
    /// The nanoseconds within the second that the sub-second parts add up to.
    FractionOfSecond,
}

/// Why a conversion failed.
#[derive(Debug, Clone, Copy, PartialEq, Eq, Structural)]
pub enum EpochError {
    /// A checked operation would leave the range of its integer type.
    NumericPrecision { operation: Conversion, value: i128 },
    /// A calendar field is outside its range, or does not fit its integer type.
    IllegalCalendarField { field: CalendarField, value: i128 },
    /// An epoch value names an instant outside the supported years.
    OutOfRange { unit: Unit, value: i128 },
    /// A required part of a date is missing: `index` is not below `len`.
    MalformedInput { index: usize, len: usize },
}

pub type Result<T> = core::result::Result<T, EpochError>;

impl EpochError {
    /// The error of a checked `operation` that overflowed on `value`.
    pub fn numeric_precision(operation: Conversion, value: i128) -> (r: Self)
        ensures
            r == (EpochError::NumericPrecision { operation, value }),
    {
        EpochError::NumericPrecision { operation, value }
    }
}

} // verus!
