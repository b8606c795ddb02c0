//! Conversions between Unix epoch timestamps, at a resolution of seconds, milliseconds,
//! microseconds or nanoseconds, and UTC calendar dates and times.
//!
//! Every instant is held as nanoseconds since 1970-01-01T00:00:00Z and lies within the
//! years -9999 to 9999 of the proleptic Gregorian calendar.
pub mod calendar;
pub mod cli;
pub mod conversions;
pub mod epoch;
pub mod errors;
pub mod utc;

pub use cli::{run, Cli, Output};
pub use epoch::{DateTimeParts, Epoch, Unit};
pub use errors::EpochError;
