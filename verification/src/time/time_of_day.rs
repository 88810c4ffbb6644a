//! The time of day, to the minute.

use crate::time::calendar_date::CalendarDate;
use crate::time::calendar_date_time::CalendarDateTime;
use crate::time::hour_of_day::HourOfDay;
use crate::time::minute_of_hour::MinuteOfHour;
use vstd::prelude::*;

verus! {

/// An hour and a minute.
#[derive(Debug, Clone, Copy, PartialEq, Eq, Structural, PartialOrd, Hash)]
pub struct TimeOfDay {
    hour: HourOfDay,
    minute: MinuteOfHour,
}

impl TimeOfDay {
    /// The hour.
    pub closed spec fn hour(self) -> HourOfDay {
        self.hour
    }

    /// The minute.
    pub closed spec fn minute(self) -> MinuteOfHour {
        self.minute
    }

    /// The minutes since midnight.
    pub open spec fn minutes_of_day(self) -> int {
        self.hour().value() * 60 + self.minute().value()
    }

    /// The time at the given hour and minute.
    pub fn new(hour: HourOfDay, minute: MinuteOfHour) -> (r: Self)
        ensures
            r.hour() == hour,
            r.minute() == minute,
    {
        Self { hour, minute }
    }

    /// The time at the given hour, at most 23, and minute, at most 59.
    pub fn from_hour_with_minute(hour: u32, minute: u32) -> (r: Self)
        requires
            hour <= 23,
            minute <= 59,
        ensures
            r.hour().value() == hour,
            r.minute().value() == minute,
    {
        TimeOfDay::new(HourOfDay::new(hour), MinuteOfHour::new(minute as u8))
    }

    /// The hour.
    pub fn breach_encapsulation_of_hour(&self) -> (r: &HourOfDay)
        ensures
            *r == self.hour(),
    {
        &self.hour
    }

    /// The minute.
    pub fn breach_encapsulation_of_minute(&self) -> (r: &MinuteOfHour)
        ensures
            *r == self.minute(),
    {
        &self.minute
    }

    /// This time on the given date.
    pub fn on(self, date: CalendarDate) -> (r: CalendarDateTime)
        ensures
            r.date() == date,
            r.time() == self,
    {
        CalendarDateTime::new(date, self)
    }

    /// This time comes after `other`.
    pub fn is_after(&self, other: &Self) -> (r: bool)
        ensures
            r == (self.minutes_of_day() > other.minutes_of_day()),
    {
        other.is_before(self)
    }

    /// This time comes before `other`.
    pub fn is_before(&self, other: &Self) -> (r: bool)
        ensures
            r == (self.minutes_of_day() < other.minutes_of_day()),
    {
        let hour = self.hour.to_u32();
        let other_hour = other.hour.to_u32();
        let minute = self.minute.to_u8();
        let other_minute = other.minute.to_u8();
        hour < other_hour || (hour == other_hour && minute < other_minute)
    }
}

} // verus!
