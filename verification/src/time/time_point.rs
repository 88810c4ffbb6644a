//! A point in time, in milliseconds since the epoch.

use crate::time::calendar_date::CalendarDate;
use crate::time::calendar_year_month::CalendarYearMonth;
use crate::time::day_of_month::DayOfMonth;
use crate::time::duration::Duration;
use crate::time::time_of_day::TimeOfDay;
use crate::time::utc::parse_millis;
use crate::time::utc::parsed_millis;
use crate::time::utc::utc_fields;
use crate::time::utc::utc_fields_of;
use crate::time::utc::utc_millis;
use crate::time::utc::utc_millis_of;
use crate::time::utc::utc_text;
use crate::time::utc::utc_text_of;
use vstd::prelude::*;
use vstd::std_specs::convert::FromSpecImpl;

verus! {

/// A point in time: the milliseconds since 1 January 1970, 00:00 UTC.
#[derive(Debug, Clone, Copy, PartialEq, Eq, Structural, PartialOrd, Hash)]
pub struct TimePoint(pub i64);

/// Why a text was not read as a point in time.
#[derive(Debug, Clone, Copy, PartialEq, Eq, Structural)]
pub enum TimePointError {
    /// The text does not denote a date and time when read by the pattern.
    Unreadable,
}

impl From<i64> for TimePoint {
    fn from(milliseconds: i64) -> (r: Self) {
        TimePoint::new(milliseconds)
    }
}

impl FromSpecImpl<i64> for TimePoint {
    open spec fn obeys_from_spec() -> bool {
        true
    }

    open spec fn from_spec(milliseconds: i64) -> Self {
        TimePoint(milliseconds)
    }
}

impl TimePoint {
    /// The point that many milliseconds after the epoch.
    pub fn new(milliseconds_from_epoc: i64) -> (r: Self)
        ensures
            r.0 == milliseconds_from_epoc,
    {
        Self(milliseconds_from_epoc)
    }

    /// The point of the given milliseconds, where there are any.
    pub fn from_millis(millis: Option<i64>) -> (r: Option<Self>)
        ensures
            r == match millis {
                Some(m) => Some(TimePoint(m)),
                None => None,
            },
    {
        match millis {
            Some(m) => Some(TimePoint::new(m)),
            None => None,
        }
    }

    /// The point at the given date and time in UTC, or `None` where there is
    /// no such date or time of day.
    pub fn at_ymd_hms_milli_utc(
        year: i32,
        month: u32,
        day: u32,
        hour: u32,
        minute: u32,
        second: u32,
        millisecond: u32,
    ) -> (r: Option<Self>)
        ensures
            r == match utc_millis(
                year as int,
                month as int,
                day as int,
                hour as int,
                minute as int,
                second as int,
                millisecond as int,
            ) {
                Some(m) => Some(TimePoint(m as i64)),
                None => None,
            },
    {
        Self::from_millis(utc_millis_of(year, month, day, hour, minute, second, millisecond))
    }

    /// The point at the given day of the given month and time in UTC, or
    /// `None` where there is no such date or time of day.
    pub fn at_cym_dom_hms_milli_utc(
        year_month: CalendarYearMonth,
        date: DayOfMonth,
        hour: u32,
        minute: u32,
        second: u32,
        millisecond: u32,
    ) -> (r: Option<Self>)
        ensures
            r == match utc_millis(
                year_month.year() as int,
                year_month.month().month().number(),
                date.value(),
                hour as int,
                minute as int,
                second as int,
                millisecond as int,
            ) {
                Some(m) => Some(TimePoint(m as i64)),
                None => None,
            },
    {
        Self::at_ymd_hms_milli_utc(
            year_month.to_year(),
            year_month.to_month_u32(),
            date.to_u32(),
            hour,
            minute,
            second,
            millisecond,
        )
    }

    /// The point at midnight in UTC on the given date, or `None` where there
    /// is no such date.
    pub fn at_midnight_cd_utc(calendar_date: CalendarDate) -> (r: Option<Self>)
        ensures
            r == match utc_millis(
                calendar_date.year_month().year() as int,
                calendar_date.year_month().month().month().number(),
                calendar_date.day().value(),
                0,
                0,
                0,
                0,
            ) {
                Some(m) => Some(TimePoint(m as i64)),
                None => None,
            },
    {
        Self::at_cym_dom_hms_milli_utc(
            *calendar_date.as_year_month(),
            *calendar_date.as_day(),
            0,
            0,
            0,
            0,
        )
    }

    /// The point read from the parsed milliseconds, or the error where the
    /// text was not read.
    pub fn from_parsed<E>(parsed: Result<i64, E>) -> (r: Result<Self, TimePointError>)
        ensures
            r == match parsed {
                Ok(m) => Ok::<TimePoint, TimePointError>(TimePoint(m)),
                Err(_) => Err::<TimePoint, TimePointError>(TimePointError::Unreadable),
            },
    {
        match parsed {
            Ok(m) => Ok(TimePoint::new(m)),
            Err(_) => Err(TimePointError::Unreadable),
        }
    }

    /// The point in time that the text denotes when read by the pattern.
    pub fn parse_utc(date_time_str: &str, pattern: &str) -> (r: Result<TimePoint, TimePointError>)
        ensures
            r == match parsed_millis(date_time_str@, pattern@) {
                Some(m) => Ok::<TimePoint, TimePointError>(TimePoint(m as i64)),
                None => Err::<TimePoint, TimePointError>(TimePointError::Unreadable),
            },
    {
        Self::from_parsed(parse_millis(date_time_str, pattern))
    }

    /// The time of day of the given fields of an instant.
    pub fn time_of_day_of(fields: Option<(i32, u32, u32, u32, u32, u32)>) -> (r: Option<TimeOfDay>)
        requires
            fields matches Some(f) ==> f.3 <= 23 && f.4 <= 59,
        ensures
            fields is None ==> r is None,
            fields matches Some(f) ==> r is Some && r->Some_0.hour().value() == f.3
                && r->Some_0.minute().value() == f.4,
    {
        match fields {
            Some(f) => Some(TimeOfDay::from_hour_with_minute(f.3, f.4)),
            None => None,
        }
    }

    /// The calendar date of this point in UTC, or `None` where the calendar
    /// does not reach that far.
    pub fn to_calendar_date_utc(&self) -> (r: Option<CalendarDate>)
        ensures
            CalendarDate::is_date_of(r, utc_fields(self.0 as int)),
    {
        CalendarDate::date_of(utc_fields_of(self.0))
    }

    /// The time of day of this point in UTC, or `None` where the calendar
    /// does not reach that far.
    pub fn to_time_of_day_utc(&self) -> (r: Option<TimeOfDay>)
        ensures
            utc_fields(self.0 as int) is None ==> r is None,
            utc_fields(self.0 as int) matches Some(f) ==> r is Some && r->Some_0.hour().value()
                == f.3 && r->Some_0.minute().value() == f.4,
    {
        Self::time_of_day_of(utc_fields_of(self.0))
    }

    /// The two instants, given by their fields, fall on the same day.
    pub fn same_day(
        mine: Option<(i32, u32, u32, u32, u32, u32)>,
        theirs: Option<(i32, u32, u32, u32, u32, u32)>,
    ) -> (r: bool)
        ensures
            r == match (mine, theirs) {
                (Some(a), Some(b)) => a.0 == b.0 && a.1 == b.1 && a.2 == b.2,
                (None, None) => true,
                _ => false,
            },
    {
        match (mine, theirs) {
            (Some(a), Some(b)) => a.0 == b.0 && a.1 == b.1 && a.2 == b.2,
            (None, None) => true,
            _ => false,
        }
    }

    /// The two points fall on the same calendar date in UTC, or both lie
    /// where the calendar does not reach.
    pub fn is_same_day_as_utc(&self, other: &Self) -> (r: bool)
        ensures
            r == match (utc_fields(self.0 as int), utc_fields(other.0 as int)) {
                (Some(a), Some(b)) => a.0 == b.0 && a.1 == b.1 && a.2 == b.2,
                (None, None) => true,
                _ => false,
            },
    {
        Self::same_day(utc_fields_of(self.0), utc_fields_of(other.0))
    }

    /// The point written in UTC as `year/month/day hour:minute:second`, or
    /// `None` where the calendar does not reach that far.
    pub fn to_string(&self) -> (r: Option<String>)
        ensures
            utc_text(self.0 as int) == match r {
                Some(text) => Some(text@),
                None => None,
            },
    {
        utc_text_of(self.0)
    }

    /// The milliseconds since the epoch.
    pub fn milliseconds_from_epoc(&self) -> (r: i64)
        ensures
            r == self.0,
    {
        self.0
    }

    /// The point that lies `duration` after this one.
    pub fn add(self, duration: Duration) -> (r: Self)
        requires
            i64::MIN <= duration.base_units() <= i64::MAX,
            i64::MIN <= self.0 + duration.base_units() <= i64::MAX,
        ensures
            r.0 == self.0 + duration.base_units(),
    {
        duration.added_to(self)
    }

    /// The point that lies `duration` before this one.
    pub fn subtract(self, duration: Duration) -> (r: Self)
        requires
            i64::MIN < duration.base_units() <= i64::MAX,
            i64::MIN <= self.0 - duration.base_units() <= i64::MAX,
        ensures
            r.0 == self.0 - duration.base_units(),
    {
        duration.subtracted_from(self)
    }

    /// The point 24 hours after this one.
    pub fn next_day(self) -> (r: Self)
        requires
            self.0 + 86_400_000 <= i64::MAX,
        ensures
            r.0 == self.0 + 86_400_000,
    {
        self.add(Duration::days(1))
    }

    /// This point comes after `other`.
    pub fn is_after(&self, other: &Self) -> (r: bool)
        ensures
            r == (self.0 > other.0),
    {
        !self.is_before(other) && self != other
    }

    /// This point comes before `other`.
    pub fn is_before(&self, other: &Self) -> (r: bool)
        ensures
            r == (self.0 < other.0),
    {
        self.0 < other.0
    }
}

} // verus!
