use baseunits_rs::time::time_point::TimePointError;
use baseunits_rs::time::CalendarDate;
use baseunits_rs::time::CalendarYearMonth;
use baseunits_rs::time::DayOfMonth;
use baseunits_rs::time::DayOfWeek;
use baseunits_rs::time::TimeOfDay;
use baseunits_rs::time::TimePoint;

#[test]
fn _at_ymd_milli() {
    let tp1 = TimePoint::new(1262304000000);
    let tp2 = TimePoint::at_ymd_hms_milli_utc(2010, 1, 1, 0, 0, 0, 0).unwrap();
    assert_eq!(tp2, tp1)
}

#[test]
fn to_time_of_day() {
    let tp1 = TimePoint::at_ymd_hms_milli_utc(2010, 1, 1, 0, 0, 0, 0).unwrap();
    let tod = TimeOfDay::from_hour_with_minute(0, 0);
    assert_eq!(tp1.to_time_of_day_utc(), Some(tod))
}

#[test]
fn is_same_day_as() {
    let tp1 = TimePoint::at_ymd_hms_milli_utc(2010, 1, 1, 0, 0, 0, 0).unwrap();
    let tp2 = TimePoint::at_ymd_hms_milli_utc(2010, 1, 1, 23, 59, 59, 0).unwrap();
    assert!(tp1.is_same_day_as_utc(&tp2))
}

#[test]
fn to_string() {
    let tp1 = TimePoint::at_ymd_hms_milli_utc(2010, 1, 1, 23, 59, 59, 0).unwrap();
    println!("{}", tp1.to_string().unwrap());
    assert_eq!(tp1.to_string().unwrap(), "2010/01/01 23:59:59");
}

#[test]
fn time_point_from_millis() {
    assert_eq!(TimePoint::from(5), TimePoint::new(5));
    assert_eq!(TimePoint::from_millis(Some(7)), Some(TimePoint::new(7)));
    assert_eq!(TimePoint::from_millis(None), None);
}

#[test]
fn at_ymd_rejects_what_does_not_exist() {
    assert_eq!(TimePoint::at_ymd_hms_milli_utc(2010, 2, 30, 0, 0, 0, 0), None);
    assert_eq!(TimePoint::at_ymd_hms_milli_utc(2010, 13, 1, 0, 0, 0, 0), None);
    assert_eq!(TimePoint::at_ymd_hms_milli_utc(2010, 1, 1, 24, 0, 0, 0), None);
    assert_eq!(TimePoint::at_ymd_hms_milli_utc(2010, 1, 1, 0, 60, 0, 0), None);
    assert_eq!(
        TimePoint::at_ymd_hms_milli_utc(1970, 1, 1, 0, 0, 1, 444),
        Some(TimePoint::new(1_444))
    );
    assert_eq!(
        TimePoint::at_ymd_hms_milli_utc(2001, 9, 9, 1, 46, 40, 555),
        Some(TimePoint::new(1_000_000_000_555))
    );
}

#[test]
fn at_midnight_of_a_calendar_date() {
    let date = CalendarDate::from_ymd(2010, 1, 1);
    assert_eq!(
        TimePoint::at_midnight_cd_utc(date),
        Some(TimePoint::new(1262304000000))
    );
    assert_eq!(
        TimePoint::at_cym_dom_hms_milli_utc(
            CalendarYearMonth::from_year_and_month(2010, 1),
            DayOfMonth::new(1),
            0,
            0,
            1,
            0
        ),
        Some(TimePoint::new(1262304001000))
    );
    assert_eq!(
        TimePoint::at_midnight_cd_utc(CalendarDate::from_ymd(2010, 2, 31)),
        None
    );
}

#[test]
fn to_calendar_date_and_time_of_day() {
    let tp = TimePoint::new(947638923004);
    assert_eq!(
        tp.to_calendar_date_utc(),
        Some(CalendarDate::from_ymd(2000, 1, 12))
    );
    assert_eq!(
        tp.to_time_of_day_utc(),
        Some(TimeOfDay::from_hour_with_minute(1, 2))
    );
    assert_eq!(tp.to_string().unwrap(), "2000/01/12 01:02:03");
    assert_eq!(TimePoint::new(i64::MAX).to_calendar_date_utc(), None);
    assert_eq!(TimePoint::new(i64::MIN).to_time_of_day_utc(), None);
    assert_eq!(TimePoint::new(i64::MAX).to_string(), None);
    assert_eq!(
        TimePoint::new(-1).to_calendar_date_utc(),
        Some(CalendarDate::from_ymd(1969, 12, 31))
    );
}

#[test]
fn same_day_in_utc() {
    let a = TimePoint::new(1262304000000);
    assert!(a.is_same_day_as_utc(&TimePoint::new(1262304000000 + 86_399_999)));
    assert!(!a.is_same_day_as_utc(&TimePoint::new(1262304000000 + 86_400_000)));
    assert!(!a.is_same_day_as_utc(&TimePoint::new(1262304000000 - 1)));
    assert!(!a.is_same_day_as_utc(&TimePoint::new(i64::MAX)));
    assert!(TimePoint::new(i64::MIN).is_same_day_as_utc(&TimePoint::new(i64::MAX)));
    assert!(TimePoint::same_day(
        Some((2010, 1, 1, 0, 0, 0)),
        Some((2010, 1, 1, 23, 59, 59))
    ));
    assert!(!TimePoint::same_day(
        Some((2010, 1, 1, 0, 0, 0)),
        Some((2010, 1, 2, 0, 0, 0))
    ));
}

#[test]
fn parse_with_pattern() {
    let tp = TimePoint::parse_utc("1983 Apr 13 12:09:14.274 +0000", "%Y %b %d %H:%M:%S%.3f %z");
    assert_eq!(tp, Ok(TimePoint::new(419_083_754_274)));
    let with_offset =
        TimePoint::parse_utc("1970-01-01 01:00:00 +0100", "%Y-%m-%d %H:%M:%S %z");
    assert_eq!(with_offset, Ok(TimePoint::new(0)));
    assert_eq!(
        TimePoint::parse_utc("no date", "%Y-%m-%d %H:%M:%S %z"),
        Err(TimePointError::Unreadable)
    );
    assert_eq!(
        TimePoint::from_parsed::<()>(Ok(5)),
        Ok(TimePoint::new(5))
    );
    assert_eq!(
        TimePoint::from_parsed(Err(())),
        Err(TimePointError::Unreadable)
    );
}

#[test]
fn day_of_week_of_a_date() {
    // 1 January 2010 was a Friday: ISO number 5, the number of Thursday here.
    let date = CalendarDate::from_ymd(2010, 1, 1);
    assert_eq!(date.day_of_week_at_utc(), Some(DayOfWeek::Thursday));
    // 4 January 2010 was a Monday: ISO number 1.
    assert_eq!(
        CalendarDate::from_ymd(2010, 1, 4).day_of_week_at_utc(),
        Some(DayOfWeek::Sunday)
    );
    // 3 January 2010 was a Sunday: ISO number 7.
    assert_eq!(
        CalendarDate::from_ymd(2010, 1, 3).day_of_week_at_utc(),
        Some(DayOfWeek::Saturday)
    );
    assert_eq!(CalendarDate::from_ymd(2010, 2, 30).day_of_week_at_utc(), None);
    assert_eq!(CalendarDate::day_of_week_of(Some(2)), Some(DayOfWeek::Monday));
    assert_eq!(CalendarDate::day_of_week_of(Some(8)), None);
    assert_eq!(CalendarDate::day_of_week_of(None), None);
}

#[test]
fn date_arithmetic_in_utc() {
    let date = CalendarDate::from_ymd(2010, 1, 31);
    assert_eq!(date.add_days_utc(1), Some(CalendarDate::from_ymd(2010, 2, 1)));
    assert_eq!(date.add_days_utc(0), Some(date));
    assert_eq!(
        date.subtract_days_utc(31),
        Some(CalendarDate::from_ymd(2009, 12, 31))
    );
    assert_eq!(date.add_months_utc(1), Some(CalendarDate::from_ymd(2010, 3, 2)));
    assert_eq!(
        date.subtract_months_utc(1),
        Some(CalendarDate::from_ymd(2010, 1, 1))
    );
    assert_eq!(date.add_days_utc(i64::MAX), None);
    assert_eq!(date.subtract_days_utc(i64::MIN), None);
    assert_eq!(date.add_months_utc(i64::MIN), None);
    assert_eq!(CalendarDate::from_ymd(2010, 2, 30).add_days_utc(1), None);
    assert_eq!(
        CalendarDate::millis_shifted(Some(10), 2, 86_400_000),
        Some(172_800_010)
    );
    assert_eq!(CalendarDate::millis_shifted(Some(10), 2, -5), Some(0));
    assert_eq!(CalendarDate::millis_shifted(None, 2, 5), None);
    assert_eq!(CalendarDate::millis_shifted(Some(i64::MAX), 1, 1), None);
    assert_eq!(
        CalendarDate::date_of(Some((2010, 1, 31, 0, 0, 0))),
        Some(date)
    );
    assert_eq!(CalendarDate::date_of(None), None);
}
