use epoch_cli::calendar::{MAX_UNIX_SECONDS, MIN_UNIX_SECONDS};
use epoch_cli::errors::{CalendarField, Conversion};
use epoch_cli::{DateTimeParts, Epoch, EpochError, Unit};

fn date(year: i32, month: u8, day: u8) -> DateTimeParts {
    DateTimeParts { year, month, day, ..Default::default() }
}

#[test]
fn seconds_round_trip() {
    for s in [0, 1, -1, 1_585_796_573, -86_401, MIN_UNIX_SECONDS, MAX_UNIX_SECONDS] {
        assert_eq!(Epoch::from_epoch_s(s).unwrap().epoch_s(), s);
    }
}

#[test]
fn nanos_round_trip() {
    for n in [0, 1, -1, 1_585_796_681_774_366_974, -123_456_789_012] {
        assert_eq!(Epoch::from_epoch_ns(n).unwrap().epoch_ns(), n);
    }
}

#[test]
fn nanos_to_millis_truncates_toward_zero() {
    assert_eq!(Epoch::from_epoch_ns(1_999_999).unwrap().epoch_ms().unwrap(), 1);
    assert_eq!(Epoch::from_epoch_ns(-1_500_000).unwrap().epoch_ms().unwrap(), -1);
    assert_eq!(Epoch::from_epoch_ns(-999_999).unwrap().epoch_ms().unwrap(), 0);
}

#[test]
fn millis_widen_exactly() {
    let ms = 1_585_796_603_436;
    assert_eq!(Epoch::from_epoch_ms(ms).unwrap().epoch_ns(), ms * 1_000_000);
    assert_eq!(Epoch::from_epoch_ms(-7).unwrap().epoch_ns(), -7_000_000);
}

#[test]
fn micros_widen_exactly() {
    let us = 1_585_796_667_156_364;
    assert_eq!(Epoch::from_epoch_us(us).unwrap().epoch_ns(), us * 1_000);
}

#[test]
fn month_thirteen_is_illegal() {
    assert_eq!(
        Epoch::from_parts(date(2020, 13, 1)).unwrap_err(),
        EpochError::IllegalCalendarField { field: CalendarField::Month, value: 13 }
    );
    assert_eq!(
        Epoch::from_parts(date(2020, 0, 1)).unwrap_err(),
        EpochError::IllegalCalendarField { field: CalendarField::Month, value: 0 }
    );
}

#[test]
fn february_twenty_ninth_needs_a_leap_year() {
    assert_eq!(
        Epoch::from_parts(date(2021, 2, 29)).unwrap_err(),
        EpochError::IllegalCalendarField { field: CalendarField::Day, value: 29 }
    );
    let leap = Epoch::from_parts(date(2020, 2, 29)).unwrap();
    assert_eq!(leap.epoch_s(), 1_582_934_400);
    assert!(Epoch::from_parts(date(1900, 2, 29)).is_err());
    assert!(Epoch::from_parts(date(2000, 2, 29)).is_ok());
}

#[test]
fn day_out_of_month_is_illegal() {
    for (month, day) in [(4, 31), (2, 30), (1, 0), (1, 32)] {
        assert_eq!(
            Epoch::from_parts(date(2021, month, day)).unwrap_err(),
            EpochError::IllegalCalendarField { field: CalendarField::Day, value: day as i128 }
        );
    }
}

#[test]
fn year_out_of_range_is_illegal() {
    assert_eq!(
        Epoch::from_parts(date(10_000, 1, 1)).unwrap_err(),
        EpochError::IllegalCalendarField { field: CalendarField::Year, value: 10_000 }
    );
    assert_eq!(
        Epoch::from_parts(date(-9999, 1, 1)).unwrap().epoch_s(),
        MIN_UNIX_SECONDS
    );
}

#[test]
fn time_of_day_out_of_range_is_illegal() {
    let mut parts = date(2020, 4, 1);
    parts.hour = 24;
    assert_eq!(
        Epoch::from_parts(parts).unwrap_err(),
        EpochError::IllegalCalendarField { field: CalendarField::Hour, value: 24 }
    );
    parts.hour = 23;
    parts.minute = 60;
    assert_eq!(
        Epoch::from_parts(parts).unwrap_err(),
        EpochError::IllegalCalendarField { field: CalendarField::Minute, value: 60 }
    );
    parts.minute = 59;
    parts.second = 60;
    assert_eq!(
        Epoch::from_parts(parts).unwrap_err(),
        EpochError::IllegalCalendarField { field: CalendarField::Second, value: 60 }
    );
}

#[test]
fn subsecond_parts_add_up() {
    let mut parts = date(1970, 1, 1);
    parts.millisecond = 500;
    parts.microsecond = 500;
    assert_eq!(parts.total_ns().unwrap(), 500_500_000);
    assert_eq!(Epoch::from_parts(parts).unwrap().epoch_ns(), 500_500_000);
    parts.millisecond = 1_500;
    assert_eq!(parts.total_ns().unwrap(), 1_500_500_000);
    assert_eq!(
        Epoch::from_parts(parts).unwrap_err(),
        EpochError::IllegalCalendarField {
            field: CalendarField::FractionOfSecond,
            value: 1_500_500_000,
        }
    );
}

#[test]
fn subsecond_sum_overflow() {
    let mut parts = date(1970, 1, 1);
    parts.millisecond = 4_000;
    parts.microsecond = 1_000_000;
    assert_eq!(
        parts.total_ns().unwrap_err(),
        EpochError::NumericPrecision {
            operation: Conversion::SubsecondSum,
            value: 5_000_000_000,
        }
    );
    parts.microsecond = 0;
    parts.nanosecond = u32::MAX;
    assert_eq!(
        Epoch::from_parts(parts).unwrap_err(),
        EpochError::NumericPrecision {
            operation: Conversion::SubsecondSum,
            value: 4_000_000_000 + u32::MAX as i128,
        }
    );
}

#[test]
fn negative_instant() {
    let epoch = Epoch::from_epoch_s(-1).unwrap();
    assert_eq!(epoch.epoch_s(), -1);
    assert_eq!(epoch.epoch_ns(), -1_000_000_000);
    assert!(epoch.fmt().starts_with("1969-12-31 23:59:59"));
}

#[test]
fn formats_as_utc_date_time() {
    let epoch = Epoch::from_epoch_s(1_585_796_573).unwrap();
    assert_eq!(epoch.fmt(), "2020-04-02 3:02:53.0 +00:00:00");
    let epoch = Epoch::from_epoch_ms(1_585_796_603_436).unwrap();
    assert_eq!(epoch.fmt(), "2020-04-02 3:03:23.436 +00:00:00");
}

#[test]
fn parts_to_seconds_and_nanoseconds() {
    let parts = DateTimeParts {
        year: 2020,
        month: 4,
        day: 1,
        hour: 17,
        minute: 8,
        second: 55,
        millisecond: 20,
        microsecond: 30,
        nanosecond: 40,
    };
    let epoch = Epoch::from_parts(parts).unwrap();
    assert_eq!(epoch.epoch_s(), 1_585_760_935);
    assert_eq!(epoch.epoch_ns(), 1_585_760_935_020_030_040);
    let converted: Epoch = parts.try_into().unwrap();
    assert_eq!(converted, epoch);
}

#[test]
fn date_only_parts_to_milliseconds() {
    let epoch = Epoch::from_parts(date(2020, 4, 1)).unwrap();
    assert_eq!(epoch.epoch_ms().unwrap(), 1_585_699_200_000);
}

#[test]
fn seconds_to_microseconds() {
    let epoch = Epoch::from_epoch_s(1_585_796_573).unwrap();
    assert_eq!(epoch.epoch_us().unwrap(), 1_585_796_573_000_000);
}

#[test]
fn parts_at_later_time_of_day() {
    let mut parts = date(2020, 4, 1);
    parts.hour = 23;
    parts.second = 30;
    assert_eq!(Epoch::from_parts(parts).unwrap().epoch_s(), 1_585_782_030);
}

#[test]
fn range_bounds() {
    assert!(Epoch::from_epoch_s(MIN_UNIX_SECONDS - 1).is_err());
    assert_eq!(
        Epoch::from_epoch_s(MAX_UNIX_SECONDS + 1).unwrap_err(),
        EpochError::OutOfRange { unit: Unit::Seconds, value: MAX_UNIX_SECONDS as i128 + 1 }
    );
    let max_ns = (MAX_UNIX_SECONDS as i128 + 1) * 1_000_000_000 - 1;
    assert_eq!(Epoch::from_epoch_ns(max_ns).unwrap().epoch_ns(), max_ns);
    assert_eq!(
        Epoch::from_epoch_ns(max_ns + 1).unwrap_err(),
        EpochError::OutOfRange { unit: Unit::Nanoseconds, value: max_ns + 1 }
    );
    let min_ns = MIN_UNIX_SECONDS as i128 * 1_000_000_000;
    assert!(Epoch::from_epoch_ns(min_ns).is_ok());
    assert!(Epoch::from_epoch_ns(min_ns - 1).is_err());
    assert!(Epoch::from_epoch_ns(i128::MAX).is_err());
    assert!(Epoch::from_epoch_ns(i128::MIN).is_err());
}

#[test]
fn millis_out_of_range() {
    assert_eq!(
        Epoch::from_epoch_ms(i128::MAX).unwrap_err(),
        EpochError::NumericPrecision { operation: Conversion::MillisToNanosI128, value: i128::MAX }
    );
    assert!(matches!(
        Epoch::from_epoch_us(i128::MAX / 1_000),
        Err(EpochError::OutOfRange { unit: Unit::Nanoseconds, .. })
    ));
}

#[test]
fn current_epoch_is_recent() {
    let now = Epoch::default();
    assert!(now.epoch_s() > 1_585_796_573);
    assert!(now.epoch_s() < 253_402_300_799);
}

#[test]
fn numeric_precision_constructor() {
    assert_eq!(
        EpochError::numeric_precision(Conversion::NanosToMillisI128, 5),
        EpochError::NumericPrecision { operation: Conversion::NanosToMillisI128, value: 5 }
    );
}

#[test]
fn shifting_by_a_duration() {
    let epoch = Epoch::from_epoch_s(-1).unwrap();
    assert_eq!(epoch.checked_add_nanos(1_500_000_000).unwrap().epoch_ns(), 500_000_000);
    assert_eq!(epoch.checked_sub_nanos(86_400_000_000_000).unwrap().epoch_s(), -86_401);
    let last = Epoch::from_epoch_s(MAX_UNIX_SECONDS).unwrap();
    assert_eq!(
        last.checked_add_nanos(1_000_000_000).unwrap_err(),
        EpochError::OutOfRange {
            unit: Unit::Nanoseconds,
            value: (MAX_UNIX_SECONDS as i128 + 1) * 1_000_000_000,
        }
    );
    assert_eq!(
        last.checked_add_nanos(i128::MAX).unwrap_err(),
        EpochError::OutOfRange { unit: Unit::Nanoseconds, value: i128::MAX }
    );
    assert_eq!(
        epoch.checked_sub_nanos(i128::MIN).unwrap_err(),
        EpochError::OutOfRange { unit: Unit::Nanoseconds, value: i128::MAX - 999_999_999 }
    );
    let later = Epoch::from_epoch_s(1).unwrap();
    assert_eq!(
        later.checked_sub_nanos(i128::MIN).unwrap_err(),
        EpochError::OutOfRange { unit: Unit::Nanoseconds, value: i128::MAX }
    );
}
