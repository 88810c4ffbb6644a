//! A calendar date with a time of day.

use crate::time::calendar_date::CalendarDate;
use crate::time::time_of_day::TimeOfDay;
use vstd::prelude::*;

verus! {

/// A date and a time of day.
#[derive(Debug, Clone, Copy, PartialEq, Eq, PartialOrd, Hash)]
pub struct CalendarDateTime {
    date: CalendarDate,
    time: TimeOfDay,
}

impl CalendarDateTime {
    /// The date.
    pub closed spec fn date(self) -> CalendarDate {
        self.date
    }

    /// The time of day.
    pub closed spec fn time(self) -> TimeOfDay {
        self.time
    }

    /// This date and time comes before `other`: on an earlier date, or at an
    /// earlier time of the same day.
    pub open spec fn is_before_spec(self, other: Self) -> bool {
        self.date().is_before_spec(other.date()) || (self.date().same_day(other.date())
            && self.time().minutes_of_day() < other.time().minutes_of_day())
    }

    /// The given time on the given date.
    pub fn new(date: CalendarDate, time: TimeOfDay) -> (r: Self)
        ensures
            r.date() == date,
            r.time() == time,
    {
        Self { date, time }
    }

    /// The date and time of the given year, month from 1 to 12, day from 1
    /// to 31, hour up to 23 and minute up to 59.
    pub fn from_ymd_hm(year: i32, month: u32, day: u32, hour: u32, minute: u32) -> (r: Self)
        requires
            1 <= month <= 12,
            1 <= day <= 31,
            hour <= 23,
            minute <= 59,
        ensures
            r.date().year_month().year() == year,
            r.date().year_month().month().month().number() == month,
            r.date().day().value() == day,
            r.time().hour().value() == hour,
            r.time().minute().value() == minute,
    {
        let cd = CalendarDate::from_ymd(year, month, day);
        let tod = TimeOfDay::from_hour_with_minute(hour, minute);
        Self::new(cd, tod)
    }

    /// This date and time comes after `other`.
    pub fn is_after(&self, other: &Self) -> (r: bool)
        ensures
            r == other.is_before_spec(*self),
    {
        !self.is_before(other) && !(!self.date.is_before(&other.date) && !self.date.is_after(
            &other.date,
        ) && !self.time.is_before(&other.time) && !self.time.is_after(&other.time))
    }

    /// This date and time comes before `other`.
    pub fn is_before(&self, other: &Self) -> (r: bool)
        ensures
            r == self.is_before_spec(*other),
    {
        if self.date.is_before(&other.date) {
            true
        } else if self.date.is_after(&other.date) {
            false
        } else {
            self.time.is_before(&other.time)
        }
    }
}

} // verus!
