//! Checked conversions between time bases.
//!
//! Widening multiplies and fails on overflow rather than wrapping; narrowing divides and
//! rounds toward zero.
use vstd::prelude::*;

use crate::calendar::div_toward_zero;
use crate::errors::{Conversion, EpochError, Result};

verus! {

/// nanoseconds per millisecond
pub const NS_PER_MS_U32: u32 = 1_000_000;

/// nanoseconds per microsecond
pub const NS_PER_US_U32: u32 = 1_000;

/// nanoseconds per millisecond
pub const NS_PER_MS_I128: i128 = 1_000_000;

/// nanoseconds per microsecond
pub const NS_PER_US_I128: i128 = 1_000;

/// Converts milliseconds to nanoseconds. Returns an error on overflow.
pub fn ms_to_ns_u32(ms: u32) -> (r: Result<u32>)
    ensures
        ms * NS_PER_MS_U32 <= u32::MAX ==> r == Ok::<u32, EpochError>((ms * NS_PER_MS_U32) as u32),
        ms * NS_PER_MS_U32 > u32::MAX ==> r == Err::<u32, EpochError>(
            EpochError::NumericPrecision { operation: Conversion::MillisToNanosU32, value: ms as i128 },
        ),
{
    match ms.checked_mul(NS_PER_MS_U32) {
        Some(ns) => Ok(ns),
        None => Err(EpochError::numeric_precision(Conversion::MillisToNanosU32, ms as i128)),
    }
}

/// Converts microseconds to nanoseconds. Returns an error on overflow.
pub fn us_to_ns_u32(us: u32) -> (r: Result<u32>)
    ensures
        us * NS_PER_US_U32 <= u32::MAX ==> r == Ok::<u32, EpochError>((us * NS_PER_US_U32) as u32),
        us * NS_PER_US_U32 > u32::MAX ==> r == Err::<u32, EpochError>(
            EpochError::NumericPrecision { operation: Conversion::MicrosToNanosU32, value: us as i128 },
        ),
{
    match us.checked_mul(NS_PER_US_U32) {
        Some(ns) => Ok(ns),
        None => Err(EpochError::numeric_precision(Conversion::MicrosToNanosU32, us as i128)),
    }
}

/// Converts milliseconds to nanoseconds. Returns an error on underflow or overflow.
pub fn ms_to_ns_i128(ms: i128) -> (r: Result<i128>)
    ensures
        i128::MIN <= ms * NS_PER_MS_I128 <= i128::MAX ==> r == Ok::<i128, EpochError>(
            (ms * NS_PER_MS_I128) as i128,
        ),
        !(i128::MIN <= ms * NS_PER_MS_I128 <= i128::MAX) ==> r == Err::<i128, EpochError>(
            EpochError::NumericPrecision { operation: Conversion::MillisToNanosI128, value: ms },
        ),
{
    match ms.checked_mul(NS_PER_MS_I128) {
        Some(ns) => Ok(ns),
        None => Err(EpochError::numeric_precision(Conversion::MillisToNanosI128, ms)),
    }
}

/// Converts microseconds to nanoseconds. Returns an error on underflow or overflow.
pub fn us_to_ns_i128(us: i128) -> (r: Result<i128>)
    ensures
        i128::MIN <= us * NS_PER_US_I128 <= i128::MAX ==> r == Ok::<i128, EpochError>(
            (us * NS_PER_US_I128) as i128,
        ),
        !(i128::MIN <= us * NS_PER_US_I128 <= i128::MAX) ==> r == Err::<i128, EpochError>(
            EpochError::NumericPrecision { operation: Conversion::MicrosToNanosI128, value: us },
        ),
{
    match us.checked_mul(NS_PER_US_I128) {
        Some(ns) => Ok(ns),
        None => Err(EpochError::numeric_precision(Conversion::MicrosToNanosI128, us)),
    }
}

/// Converts nanoseconds to milliseconds, rounding toward zero. The divisor is fixed and
/// non-zero, so this always succeeds.
pub fn ns_to_ms_i128(ns: i128) -> (r: Result<i128>)
    ensures
        r == Ok::<i128, EpochError>(div_toward_zero(ns as int, NS_PER_MS_I128 as int) as i128),
{
    match ns.checked_div(NS_PER_MS_I128) {
        Some(ms) => Ok(ms),
        None => Err(EpochError::numeric_precision(Conversion::NanosToMillisI128, ns)),
    }
}

/// Converts nanoseconds to microseconds, rounding toward zero. The divisor is fixed and
/// non-zero, so this always succeeds.
pub fn ns_to_us_i128(ns: i128) -> (r: Result<i128>)
    ensures
        r == Ok::<i128, EpochError>(div_toward_zero(ns as int, NS_PER_US_I128 as int) as i128),
{
    match ns.checked_div(NS_PER_US_I128) {
        Some(us) => Ok(us),
        None => Err(EpochError::numeric_precision(Conversion::NanosToMicrosI128, ns)),
    }
}

} // verus!
