use baseunits_rs::time::is_leap_year;
use baseunits_rs::time::CalendarDate;
use baseunits_rs::time::CalendarDateTime;
use baseunits_rs::time::CalendarYearMonth;
use baseunits_rs::time::DayOfMonth;
use baseunits_rs::time::DayOfWeek;
use baseunits_rs::time::Duration;
use baseunits_rs::time::HourOfDay;
use baseunits_rs::time::MinuteOfHour;
use baseunits_rs::time::Month;
use baseunits_rs::time::MonthOfYear;
use baseunits_rs::time::TimePoint;
use baseunits_rs::time::TimeUnit;
use std::cmp::Ordering;

#[test]
fn test_from_month() {
    let moy = MonthOfYear::from_month(Month::January);
    assert_eq!(*moy.as_value(), Month::January);
    assert_eq!(moy.last_day_in(2021), DayOfMonth::new(31))
}

#[test]
fn from_month_gives_last_day_of_common_year() {
    let days = [31, 28, 31, 30, 31, 30, 31, 31, 30, 31, 30, 31];
    for n in 1..=12u32 {
        let month = Month::from_u32(n).unwrap();
        let moy = MonthOfYear::from_month(month);
        assert_eq!(*moy.as_value(), month);
        assert_eq!(moy.last_day_in(2021).to_u32(), days[(n - 1) as usize]);
    }
    assert_eq!(MonthOfYear::feb().last_day_in(2020).to_u32(), 29);
    assert_eq!(MonthOfYear::feb().last_day_in(1900).to_u32(), 28);
    assert_eq!(MonthOfYear::feb().last_day_in(2000).to_u32(), 29);
    assert_eq!(MonthOfYear::day_of_month_29().to_u32(), 29);
}

#[test]
fn last_day_read_from_the_clock_is_one_of_the_two() {
    let feb = MonthOfYear::feb().as_last_day().to_u32();
    assert!(feb == 28 || feb == 29);
    assert_eq!(MonthOfYear::mar().as_last_day().to_u32(), 31);
    let ym = CalendarYearMonth::new(2021, MonthOfYear::apr());
    assert_eq!(ym.as_last_day_of_month().to_u32(), 30);
    assert_eq!(ym.last_day_of_month_in(2021).to_u32(), 30);
    assert!(DayOfMonth::new(30).is_appliable(ym));
    assert!(!DayOfMonth::new(31).is_appliable(ym));
    assert!(DayOfMonth::new(28).is_appliable_up_to(&DayOfMonth::new(28)));
    assert!(!DayOfMonth::new(29).is_appliable_up_to(&DayOfMonth::new(28)));
}

#[test]
fn month_of_year_equality_goes_by_month() {
    let odd = MonthOfYear::new(DayOfMonth::new(30), Month::January);
    assert_eq!(odd, MonthOfYear::jan());
    assert_ne!(MonthOfYear::jan(), MonthOfYear::feb());
    assert_eq!(
        MonthOfYear::jan().partial_cmp(&MonthOfYear::feb()),
        Some(Ordering::Less)
    );
    assert_eq!(
        MonthOfYear::dec().partial_cmp(&MonthOfYear::feb()),
        Some(Ordering::Greater)
    );
    assert_eq!(odd.partial_cmp(&MonthOfYear::jan()), Some(Ordering::Equal));
    assert!(MonthOfYear::jan().is_before(&MonthOfYear::feb()));
    assert!(MonthOfYear::mar().is_after(&MonthOfYear::feb()));
    assert!(!MonthOfYear::mar().is_after(&MonthOfYear::mar()));
}

#[test]
fn month_add_with_overflow() {
    let (next, overflow) = MonthOfYear::jan().add_with_overflow();
    assert_eq!(*next.as_value(), Month::February);
    assert_eq!(overflow, false);
    let (next, overflow) = MonthOfYear::dec().add_with_overflow();
    assert_eq!(*next.as_value(), Month::January);
    assert_eq!(overflow, true);
    assert_eq!(next.last_day_in(2021).to_u32(), 31);
}

#[test]
fn leap_years() {
    assert!(is_leap_year(2000));
    assert!(is_leap_year(2004));
    assert!(!is_leap_year(1900));
    assert!(!is_leap_year(2001));
    assert!(is_leap_year(-4));
    assert!(!is_leap_year(-100));
    assert!(is_leap_year(0));
}

#[test]
fn day_of_week_numbers() {
    assert_eq!(DayOfWeek::Sunday.to_i64(), Some(1));
    assert_eq!(DayOfWeek::Saturday.to_u64(), Some(7));
    assert_eq!(DayOfWeek::from_i64(2), Some(DayOfWeek::Monday));
    assert_eq!(DayOfWeek::from_u64(7), Some(DayOfWeek::Saturday));
    assert_eq!(DayOfWeek::from_u32(4), Some(DayOfWeek::Wednesday));
    assert_eq!(DayOfWeek::from_i64(0), None);
    assert_eq!(DayOfWeek::from_i64(-1), None);
    assert_eq!(DayOfWeek::from_u64(8), None);
    assert_eq!(DayOfWeek::Thursday.to_u32(), 5);
}

#[test]
fn month_numbers() {
    assert_eq!(Month::January.to_i64(), Some(1));
    assert_eq!(Month::December.to_u64(), Some(12));
    assert_eq!(Month::from_i64(6), Some(Month::June));
    assert_eq!(Month::from_u64(9), Some(Month::September));
    assert_eq!(Month::from_i64(0), None);
    assert_eq!(Month::from_i64(13), None);
    assert_eq!(Month::from_u64(13), None);
    assert_eq!(Month::from_u32(0), None);
}

#[test]
fn day_of_month_order() {
    let a = DayOfMonth::new(1);
    let b = DayOfMonth::new(31);
    assert_eq!(a.to_u32(), 1);
    assert!(a.is_before(&b));
    assert!(b.is_after(&a));
    assert!(!a.is_after(&a));
    assert!(!a.is_before(&a));
    assert_eq!(DayOfMonth::MIN, 1);
    assert_eq!(DayOfMonth::MAX, 31);
}

#[test]
fn hours_and_minutes() {
    assert_eq!(HourOfDay::new(7).to_string(), "07");
    assert_eq!(HourOfDay::new(23).to_string(), "23");
    assert_eq!(MinuteOfHour::new(0).to_string(), "00");
    assert_eq!(MinuteOfHour::new(59).to_string(), "59");
    assert_eq!(HourOfDay::new(7) + HourOfDay::new(8), HourOfDay::new(15));
    assert_eq!(HourOfDay::new(15) - HourOfDay::new(8), HourOfDay::new(7));
    assert_eq!(MinuteOfHour::new(20) + MinuteOfHour::new(39), MinuteOfHour::new(59));
    assert_eq!(MinuteOfHour::new(20) - MinuteOfHour::new(20), MinuteOfHour::new(0));
    assert!(HourOfDay::new(7).is_before(&HourOfDay::new(8)));
    assert!(HourOfDay::new(9).is_after(&HourOfDay::new(8)));
    assert!(!HourOfDay::new(8).is_after(&HourOfDay::new(8)));
    assert!(MinuteOfHour::new(7).is_before(&MinuteOfHour::new(8)));
    assert!(MinuteOfHour::new(9).is_after(&MinuteOfHour::new(8)));
    assert_eq!(HourOfDay::new(5).to_u32(), 5);
    assert_eq!(MinuteOfHour::new(5).to_u8(), 5);
    assert_eq!(HourOfDay::MAX, 23);
    assert_eq!(MinuteOfHour::MAX, 59);
}

#[test]
fn calendar_year_month_order_and_add() {
    let mut ym = CalendarYearMonth::new(2020, MonthOfYear::nov());
    assert_eq!(ym.to_year(), 2020);
    assert_eq!(ym.to_month_u32(), 11);
    assert_eq!(*ym.as_month(), Month::November);
    assert_eq!(*ym.as_month_of_year(), MonthOfYear::nov());
    ym.add_month();
    assert_eq!(ym, CalendarYearMonth::new(2020, MonthOfYear::dec()));
    ym.add_month();
    assert_eq!(ym, CalendarYearMonth::new(2021, MonthOfYear::jan()));
    assert_eq!(ym, CalendarYearMonth::from_year_and_month(2021, 1));
    assert_eq!(ym, MonthOfYear::jan().on(2021));
    let earlier = CalendarYearMonth::new(2020, MonthOfYear::dec());
    assert!(earlier.is_before(&ym));
    assert!(ym.is_after(&earlier));
    assert!(!ym.is_after(&ym));
    assert!(!ym.is_before(&ym));
    let same_year = CalendarYearMonth::new(2021, MonthOfYear::mar());
    assert!(ym.is_before(&same_year));
    assert!(same_year.is_after(&ym));
}

#[test]
fn calendar_date_order() {
    let a = CalendarDate::from_ymd(2006, 2, 17);
    let b = CalendarDate::from_ymd(2006, 2, 18);
    let c = CalendarDate::from_ymd(2006, 3, 1);
    let d = CalendarDate::from_ymd(2005, 12, 31);
    assert!(a.is_before(&b));
    assert!(b.is_after(&a));
    assert!(a.is_before(&c));
    assert!(d.is_before(&a));
    assert!(!a.is_before(&a));
    assert!(!a.is_after(&a));
    assert_eq!(a.as_day().to_u32(), 17);
    assert_eq!(a.as_year_month().to_year(), 2006);
    assert_eq!(a.as_year_month().to_month_u32(), 2);
    assert_eq!(
        DayOfMonth::new(17).on(CalendarYearMonth::from_year_and_month(2006, 2)),
        a
    );
}

#[test]
fn calendar_date_time_order() {
    let a = CalendarDateTime::from_ymd_hm(2006, 2, 17, 10, 20);
    let b = CalendarDateTime::from_ymd_hm(2006, 2, 17, 10, 21);
    let c = CalendarDateTime::from_ymd_hm(2006, 2, 18, 0, 0);
    assert!(a.is_before(&b));
    assert!(b.is_after(&a));
    assert!(a.is_before(&c));
    assert!(c.is_after(&b));
    assert!(!a.is_before(&a));
    assert!(!a.is_after(&a));
}

#[test]
fn duration_in_base_units() {
    assert_eq!(Duration::milliseconds(5).in_base_units(), 5);
    assert_eq!(Duration::seconds(5).in_base_units(), 5_000);
    assert_eq!(Duration::minutes(2).in_base_units(), 120_000);
    assert_eq!(Duration::hours(1).in_base_units(), 3_600_000);
    assert_eq!(Duration::days(1).in_base_units(), 86_400_000);
    assert_eq!(Duration::weeks(1).in_base_units(), 604_800_000);
    assert_eq!(Duration::months(7).in_base_units(), 7);
    assert_eq!(Duration::quarters(2).in_base_units(), 6);
    assert_eq!(Duration::years(3).in_base_units(), 36);
    assert_eq!(Duration::new(-2, TimeUnit::second()).in_base_units(), -2_000);
}

#[test]
fn duration_add_and_subtract() {
    let sum = Duration::hours(1).add(&Duration::minutes(30));
    assert_eq!(sum, Duration::milliseconds(5_400_000));
    let sum = Duration::years(1).add(&Duration::quarters(1));
    assert_eq!(sum, Duration::months(15));
    let diff = Duration::hours(1).subtract(&Duration::minutes(30));
    assert_eq!(diff, Duration::milliseconds(1_800_000));
    assert_eq!(Duration::hours(1) + Duration::hours(2), Duration::milliseconds(10_800_000));
    assert_eq!(Duration::hours(2) - Duration::hours(1), Duration::milliseconds(3_600_000));
    let with_zero = Duration::hours(1).add(&Duration::months(0));
    assert_eq!(with_zero, Duration::milliseconds(3_600_000));
    let zero_first = Duration::months(0).add(&Duration::hours(1));
    assert_eq!(zero_first, Duration::milliseconds(3_600_000));
}

#[test]
fn duration_checks() {
    assert!(Duration::hours(1).check_convertible(&Duration::days(1)));
    assert!(!Duration::hours(1).check_convertible(&Duration::months(1)));
    assert!(Duration::hours(1).check_convertible(&Duration::months(0)));
    assert!(Duration::hours(0).check_convertible(&Duration::months(3)));
    assert!(Duration::hours(1).is_convertible_to(&Duration::days(0)));
    assert!(!Duration::hours(0).is_convertible_to(&Duration::years(0)));
    assert!(Duration::check_amount_valid(2_147_483_647));
    assert!(Duration::check_amount_valid(-2_147_483_648));
    assert!(!Duration::check_amount_valid(2_147_483_648));
    assert!(!Duration::check_amount_valid(-2_147_483_649));
    assert!(Duration::hours(2).check_greater_than_or_else(&Duration::hours(1)));
    assert!(Duration::hours(2).check_greater_than_or_else(&Duration::minutes(120)));
    assert!(!Duration::hours(1).check_greater_than_or_else(&Duration::hours(2)));
    assert!(Duration::hours(1).check_greater_than_or_else(&Duration::months(2)));
}

#[test]
fn duration_order() {
    assert_eq!(
        Duration::hours(1).partial_cmp(&Duration::minutes(60)),
        Some(Ordering::Equal)
    );
    assert_eq!(
        Duration::hours(1).partial_cmp(&Duration::hours(2)),
        Some(Ordering::Greater)
    );
    assert_eq!(
        Duration::hours(2).partial_cmp(&Duration::hours(1)),
        Some(Ordering::Less)
    );
    assert_eq!(Duration::hours(2).partial_cmp(&Duration::months(1)), None);
    assert_eq!(
        Duration::hours(0).partial_cmp(&Duration::months(0)),
        Some(Ordering::Equal)
    );
    assert_eq!(
        Duration::weeks(i64::MAX).partial_cmp(&Duration::weeks(i64::MIN)),
        Some(Ordering::Less)
    );
}

#[test]
fn time_point_arithmetic() {
    let tp = TimePoint::new(1_262_304_000_000);
    assert_eq!(tp.milliseconds_from_epoc(), 1_262_304_000_000);
    assert_eq!(tp.next_day(), TimePoint::new(1_262_390_400_000));
    assert_eq!(tp.add(Duration::hours(1)), TimePoint::new(1_262_307_600_000));
    assert_eq!(tp.subtract(Duration::seconds(1)), TimePoint::new(1_262_303_999_000));
    assert_eq!(Duration::minutes(1).added_to(tp), TimePoint::new(1_262_304_060_000));
    assert_eq!(
        Duration::minutes(1).subtracted_from(tp),
        TimePoint::new(1_262_303_940_000)
    );
    assert!(tp.is_before(&tp.next_day()));
    assert!(tp.next_day().is_after(&tp));
    assert!(!tp.is_after(&tp));
    assert!(!tp.is_before(&tp));
}

#[test]
fn conversions_from_pairs() {
    assert_eq!(
        CalendarYearMonth::from((2021, MonthOfYear::jan())),
        CalendarYearMonth::new(2021, MonthOfYear::jan())
    );
    assert_eq!(
        CalendarDate::from((CalendarYearMonth::from_year_and_month(2006, 2), DayOfMonth::new(17))),
        CalendarDate::from_ymd(2006, 2, 17)
    );
}
