use arrow_typing::element::primitive::{
    Date32, Date64, Duration, IntervalDayTime, IntervalMonthDayNano, IntervalYearMonth, Microsecond,
    Millisecond, Nanosecond, Second, Time,
};
use std::time::Duration as StdDuration;

#[test]
fn dates_wrap_their_number() {
    let date = Date32::from(19_000);
    assert_eq!(i32::from(date), 19_000);
    let date = Date64::from(-86_400_000);
    assert_eq!(i64::from(date), -86_400_000);
    assert_eq!(Date32::from(3), Date32::from(3));
    assert!(Date32::from(3) < Date32::from(4));
}

#[test]
fn times_wrap_their_number() {
    assert_eq!(i32::from(Time::<Second>::from(86_399)), 86_399);
    assert_eq!(i32::from(Time::<Millisecond>::from(-5)), -5);
    assert_eq!(i64::from(Time::<Microsecond>::from(1 << 40)), 1 << 40);
    assert_eq!(i64::from(Time::<Nanosecond>::from(i64::MIN)), i64::MIN);
}

#[test]
fn durations_wrap_their_number() {
    assert_eq!(i64::from(Duration::<Second>::from(12)), 12);
    assert_eq!(i64::from(Duration::<Nanosecond>::from(-12)), -12);
}

#[test]
fn durations_to_std() {
    assert_eq!(
        StdDuration::try_from(Duration::<Second>::from(3)),
        Ok(StdDuration::from_secs(3))
    );
    assert_eq!(
        StdDuration::try_from(Duration::<Millisecond>::from(3)),
        Ok(StdDuration::from_millis(3))
    );
    assert_eq!(
        StdDuration::try_from(Duration::<Microsecond>::from(3)),
        Ok(StdDuration::from_micros(3))
    );
    assert_eq!(
        StdDuration::try_from(Duration::<Nanosecond>::from(3)),
        Ok(StdDuration::from_nanos(3))
    );
    assert_eq!(
        StdDuration::try_from(Duration::<Second>::from(0)),
        Ok(StdDuration::from_secs(0))
    );
    assert_eq!(
        StdDuration::try_from(Duration::<Second>::from(i64::MAX)),
        Ok(StdDuration::from_secs(i64::MAX as u64))
    );
    assert!(StdDuration::try_from(Duration::<Second>::from(-1)).is_err());
    assert!(StdDuration::try_from(Duration::<Millisecond>::from(-1)).is_err());
    assert!(StdDuration::try_from(Duration::<Microsecond>::from(i64::MIN)).is_err());
    assert!(StdDuration::try_from(Duration::<Nanosecond>::from(-7)).is_err());
}

#[test]
fn durations_from_std() {
    let std = StdDuration::new(5, 123_456_789);
    assert_eq!(Duration::<Second>::try_from(std).map(i64::from), Ok(5));
    assert_eq!(Duration::<Millisecond>::try_from(std).map(i64::from), Ok(5_123));
    assert_eq!(Duration::<Microsecond>::try_from(std).map(i64::from), Ok(5_123_456));
    assert_eq!(Duration::<Nanosecond>::try_from(std).map(i64::from), Ok(5_123_456_789));
    let huge = StdDuration::from_secs(u64::MAX);
    assert!(Duration::<Second>::try_from(huge).is_err());
    assert!(Duration::<Millisecond>::try_from(huge).is_err());
    assert!(Duration::<Microsecond>::try_from(huge).is_err());
    assert!(Duration::<Nanosecond>::try_from(huge).is_err());
    let limit = StdDuration::from_secs(i64::MAX as u64);
    assert_eq!(Duration::<Second>::try_from(limit).map(i64::from), Ok(i64::MAX));
    assert!(Duration::<Second>::try_from(limit + StdDuration::from_secs(1)).is_err());
    assert!(Duration::<Millisecond>::try_from(limit).is_err());
}

#[test]
fn interval_day_time_parts() {
    let cases = [
        (0, 0, 0i64),
        (1, 2, (1i64 << 32) | 2),
        (0, -1, 0xFFFF_FFFF),
        (-1, 0, -(1i64 << 32)),
        (-1, -1, -1),
        (i32::MAX, i32::MIN, ((i32::MAX as i64) << 32) | 0x8000_0000),
        (i32::MIN, i32::MAX, ((i32::MIN as i64) << 32) | 0x7FFF_FFFF),
    ];
    for (days, millis, value) in cases {
        let interval = IntervalDayTime::new(days, millis);
        assert_eq!(i64::from(interval), value);
        assert_eq!(interval.to_parts(), (days, millis));
        assert_eq!(IntervalDayTime::from(value).to_parts(), (days, millis));
    }
}

#[test]
fn interval_month_day_nano_parts() {
    let cases = [
        (0, 0, 0i64, 0i128),
        (1, 2, 3, (1i128 << 96) | (2i128 << 64) | 3),
        (0, 0, -1, 0xFFFF_FFFF_FFFF_FFFF),
        (0, -1, 0, 0xFFFF_FFFFi128 << 64),
        (-1, 0, 0, -(1i128 << 96)),
        (-1, -1, -1, -1),
        (
            i32::MIN,
            i32::MAX,
            i64::MIN,
            ((i32::MIN as i128) << 96) | (0x7FFF_FFFFi128 << 64) | (1i128 << 63),
        ),
    ];
    for (months, days, nanos, value) in cases {
        let interval = IntervalMonthDayNano::new(months, days, nanos);
        assert_eq!(i128::from(interval), value);
        assert_eq!(interval.to_parts(), (months, days, nanos));
        assert_eq!(IntervalMonthDayNano::from(value).to_parts(), (months, days, nanos));
    }
}

#[test]
fn interval_year_month_counts_months() {
    assert_eq!(IntervalYearMonth::new(0, 0).to_months(), 0);
    assert_eq!(IntervalYearMonth::new(2, 3).to_months(), 27);
    assert_eq!(IntervalYearMonth::new(-2, 3).to_months(), -21);
    assert_eq!(IntervalYearMonth::new(1, -13).to_months(), -1);
    assert_eq!(i32::from(IntervalYearMonth::new(100, 11)), 1211);
    assert_eq!(IntervalYearMonth::from(-8).to_months(), -8);
    assert_eq!(
        IntervalYearMonth::checked_new(178_956_970, 7).map(IntervalYearMonth::to_months),
        Some(i32::MAX)
    );
    assert!(IntervalYearMonth::checked_new(178_956_970, 8).is_none());
    assert!(IntervalYearMonth::checked_new(178_956_971, -12).is_none());
    assert!(IntervalYearMonth::checked_new(i32::MIN, 0).is_none());
    assert_eq!(
        IntervalYearMonth::checked_new(-178_956_970, -8).map(IntervalYearMonth::to_months),
        Some(i32::MIN)
    );
    assert!(IntervalYearMonth::checked_new(-178_956_970, -9).is_none());
}
