use baseunits_rs::time::CalendarDate;
use baseunits_rs::time::CalendarDateTime;
use baseunits_rs::time::HourOfDay;
use baseunits_rs::time::MinuteOfHour;
use baseunits_rs::time::TimeOfDay;
use std::collections::hash_map::DefaultHasher;
use std::hash::{Hash, Hasher};

fn feb17() -> CalendarDate {
    CalendarDate::from_ymd(2006, 2, 17)
}

fn midnight() -> TimeOfDay {
    TimeOfDay::from_hour_with_minute(0, 0)
}

fn morning() -> TimeOfDay {
    TimeOfDay::from_hour_with_minute(10, 20)
}

fn noon() -> TimeOfDay {
    TimeOfDay::from_hour_with_minute(12, 0)
}

fn afternoon() -> TimeOfDay {
    TimeOfDay::from_hour_with_minute(15, 40)
}

fn two_minutes_before_midnight() -> TimeOfDay {
    TimeOfDay::from_hour_with_minute(23, 58)
}

fn ten_minutes_before_midnight() -> TimeOfDay {
    TimeOfDay::from_hour_with_minute(23, 50)
}

fn hash_of(t: &TimeOfDay) -> u64 {
    let mut hasher = DefaultHasher::new();
    t.hash(&mut hasher);
    hasher.finish()
}

#[test]
fn test01_on_start_of_day() {
    let feb17at_start_of_day = CalendarDateTime::from_ymd_hm(2006, 2, 17, 0, 0);
    assert_eq!(midnight().on(feb17()), feb17at_start_of_day)
}

#[test]
fn test02_on_middle_of_day() {
    let feb17at_middle_of_day = CalendarDateTime::from_ymd_hm(2006, 2, 17, 12, 0);
    assert_eq!(noon().on(feb17()), feb17at_middle_of_day)
}

#[test]
fn test03_on_end_of_day() {
    let feb17at_end_of_day = CalendarDateTime::from_ymd_hm(2006, 2, 17, 23, 58);
    assert_eq!(two_minutes_before_midnight().on(feb17()), feb17at_end_of_day)
}

#[test]
fn test04_equals() {
    assert_eq!(midnight(), TimeOfDay::from_hour_with_minute(0, 0));
    assert_eq!(morning(), TimeOfDay::from_hour_with_minute(10, 20));
    assert_eq!(noon(), TimeOfDay::from_hour_with_minute(12, 0));
    assert_eq!(afternoon(), TimeOfDay::from_hour_with_minute(15, 40));
    assert_eq!(
        two_minutes_before_midnight(),
        TimeOfDay::from_hour_with_minute(23, 58)
    );
    assert_ne!(midnight(), morning());
    assert_ne!(ten_minutes_before_midnight(), two_minutes_before_midnight());
    assert_eq!(
        noon(),
        TimeOfDay::new(HourOfDay::new(12), MinuteOfHour::new(0))
    );
}

#[test]
fn test05_hash_code() {
    assert_eq!(
        hash_of(&midnight()),
        hash_of(&TimeOfDay::from_hour_with_minute(0, 0))
    );
    assert_eq!(
        hash_of(&morning()),
        hash_of(&TimeOfDay::from_hour_with_minute(10, 20))
    );
    assert_eq!(
        hash_of(&noon()),
        hash_of(&TimeOfDay::from_hour_with_minute(12, 0))
    );
    assert_eq!(
        hash_of(&afternoon()),
        hash_of(&TimeOfDay::from_hour_with_minute(15, 40))
    );
    assert_eq!(
        hash_of(&two_minutes_before_midnight()),
        hash_of(&TimeOfDay::from_hour_with_minute(23, 58))
    );
}

#[test]
fn test06_after_with_earlier_time_of_day() {
    assert!(
        two_minutes_before_midnight().is_after(&midnight()),
        "expected TWO_MINUTES_BEFORE_MIDNIGHT to be after MIDNIGHT"
    );
    assert!(
        afternoon().is_after(&morning()),
        "expected AFTERNOON to be after MORNING"
    );
    assert!(
        noon().is_after(&midnight()),
        "expected NOON to be after MIDNIGHT"
    );
}

#[test]
fn test07_after_with_later_time_of_day() {
    assert_eq!(
        midnight().is_after(&two_minutes_before_midnight()),
        false,
        "expected MIDNIGHT not after TWO_MINUTES_BEFORE_MIDNIGHT"
    );
    assert_eq!(
        morning().is_after(&afternoon()),
        false,
        "expected MORNING not after AFTERNOON"
    );
    assert_eq!(
        noon().is_after(&two_minutes_before_midnight()),
        false,
        "expected NOON not after TWO_MINUTES_BEFORE_MIDNIGHT"
    )
}

#[test]
fn test08_after_with_same_time_of_day() {
    assert_eq!(
        midnight().is_after(&midnight()),
        false,
        "expected MIDNIGHT not after MIDNIGHT"
    );
    assert_eq!(
        midnight().lt(&midnight()),
        false,
        "expected MIDNIGHT not after MIDNIGHT"
    );
    assert_eq!(
        morning().is_after(&morning()),
        false,
        "expected MORNING not after MORNING"
    );
    assert_eq!(
        morning().lt(&morning()),
        false,
        "expected MORNING not after MORNING"
    );
    assert_eq!(
        afternoon().is_after(&afternoon()),
        false,
        "expected AFTERNOON not after AFTERNOON"
    );
    assert_eq!(
        afternoon().lt(&afternoon()),
        false,
        "expected AFTERNOON not after AFTERNOON"
    );
    assert_eq!(noon().is_after(&noon()), false, "expected NOON not after NOON");
    assert_eq!(noon().lt(&noon()), false, "expected NOON not after NOON");
}

#[test]
fn test09_before_with_earlier_time_of_day() {
    assert_eq!(
        two_minutes_before_midnight().is_before(&midnight()),
        false,
        "expected twoMinutesBeforeMidnight not after midnight"
    );
    assert_eq!(
        afternoon().is_before(&morning()),
        false,
        "expected afternoon not after morning"
    );
    assert_eq!(
        noon().is_before(&midnight()),
        false,
        "expected noon not after midnight"
    );
}

#[test]
fn test10_before_with_later_time_of_day() {
    assert!(
        midnight().is_before(&two_minutes_before_midnight()),
        "expected midnight not after twoMinutesBeforeMidnight"
    );
    assert!(
        morning().is_before(&afternoon()),
        "expected morning not after afternoon"
    );
    assert!(
        noon().is_before(&two_minutes_before_midnight()),
        "expected noon not after twoMinutesBeforeMidnight"
    );
}

#[test]
fn test11_before_with_same_time_of_day() {
    assert!(
        !midnight().is_before(&midnight()),
        "expected midnight not after midnight"
    );
    assert!(
        !morning().is_before(&morning()),
        "expected morning not after morning"
    );
    assert!(
        !afternoon().is_before(&afternoon()),
        "expected afternoon not after afternoon"
    );
    assert!(!noon().is_before(&noon()), "expected NOON not after NOON");
}

#[test]
fn test12_get_hour() {
    assert_eq!(*midnight().breach_encapsulation_of_hour(), HourOfDay::new(0));
    assert_eq!(*morning().breach_encapsulation_of_hour(), HourOfDay::new(10));
    assert_eq!(*noon().breach_encapsulation_of_hour(), HourOfDay::new(12));
    assert_eq!(
        *afternoon().breach_encapsulation_of_hour(),
        HourOfDay::new(15)
    );
    assert_eq!(
        *two_minutes_before_midnight().breach_encapsulation_of_hour(),
        HourOfDay::new(23)
    );
}

#[test]
fn test13_get_minute() {
    assert_eq!(
        *midnight().breach_encapsulation_of_minute(),
        MinuteOfHour::new(0)
    );
    assert_eq!(
        *morning().breach_encapsulation_of_minute(),
        MinuteOfHour::new(20)
    );
    assert_eq!(*noon().breach_encapsulation_of_minute(), MinuteOfHour::new(0));
    assert_eq!(
        *afternoon().breach_encapsulation_of_minute(),
        MinuteOfHour::new(40)
    );
    assert_eq!(
        *two_minutes_before_midnight().breach_encapsulation_of_minute(),
        MinuteOfHour::new(58)
    );
}
