//! A day of a month of a year.

use crate::time::calendar_year_month::CalendarYearMonth;
use crate::time::day_of_month::DayOfMonth;
use crate::time::utc::iso_weekday;
use crate::time::utc::iso_weekday_of;
use crate::time::utc::utc_fields;
use crate::time::utc::utc_fields_of;
use crate::time::utc::utc_millis;
use crate::time::utc::utc_millis_of;
use crate::time::DayOfWeek;
use vstd::prelude::*;
use vstd::std_specs::convert::FromSpecImpl;

verus! {

/// A calendar date.
#[derive(Debug, Clone, Copy, PartialEq, Eq, PartialOrd, Hash)]
pub struct CalendarDate {
    year_month: CalendarYearMonth,
    day: DayOfMonth,
}

impl CalendarDate {
    /// The month of the date.
    pub closed spec fn year_month(self) -> CalendarYearMonth {
        self.year_month
    }

    /// The day of the date.
    pub closed spec fn day(self) -> DayOfMonth {
        self.day
    }

    /// This date comes before `other`: in an earlier month, or on an earlier
    /// day of the same month.
    pub open spec fn is_before_spec(self, other: Self) -> bool {
        self.year_month().months() < other.year_month().months() || (self.year_month().months()
            == other.year_month().months() && self.day().value() < other.day().value())
    }

    /// The two dates are the same day.
    pub open spec fn same_day(self, other: Self) -> bool {
        self.year_month().months() == other.year_month().months() && self.day().value()
            == other.day().value()
    }

    /// This is the date of the given year, month and day, the month made
    /// with its last day in a common year.
    pub open spec fn is_ymd(self, year: int, month: int, day: int) -> bool {
        self.year_month().is_year_month(year, month) && self.day().value() == day
    }

    /// The date that the fields of an instant give: the date of their year,
    /// month and day.
    pub open spec fn is_date_of(
        r: Option<CalendarDate>,
        fields: Option<(int, int, int, int, int, int)>,
    ) -> bool {
        match fields {
            Some(f) => r is Some && r->Some_0.is_ymd(f.0, f.1, f.2),
            None => r is None,
        }
    }

    /// The milliseconds moved by the given amount, where they fit in 64
    /// bits.
    pub open spec fn shifted(millis: Option<int>, by: int) -> Option<int> {
        match millis {
            Some(m) => if i64::MIN <= m + by <= i64::MAX {
                Some(m + by)
            } else {
                None
            },
            None => None,
        }
    }

    /// The fields in UTC of the instant that lies the given number of days
    /// after midnight of this date.
    pub open spec fn fields_days_later(self, days: int) -> Option<(int, int, int, int, int, int)> {
        match Self::shifted(
            utc_millis(
                self.year_month().year() as int,
                self.year_month().month().month().number(),
                self.day().value(),
                0,
                0,
                0,
                0,
            ),
            days * 86_400_000,
        ) {
            Some(m) => utc_fields(m),
            None => None,
        }
    }

    /// The given day of the given month.
    pub fn new(year_month: CalendarYearMonth, day: DayOfMonth) -> (r: Self)
        ensures
            r.year_month() == year_month,
            r.day() == day,
    {
        Self { year_month, day }
    }

    /// The date of the given year, month from 1 to 12 and day from 1 to 31.
    pub fn from_ymd(year: i32, month: u32, day: u32) -> (r: Self)
        requires
            1 <= month <= 12,
            1 <= day <= 31,
        ensures
            r.is_ymd(year as int, month as int, day as int),
    {
        let cym = CalendarYearMonth::from_year_and_month(year, month);
        let dom = DayOfMonth::new(day);
        Self::new(cym, dom)
    }

    /// The month of the date.
    pub fn as_year_month(&self) -> (r: &CalendarYearMonth)
        ensures
            *r == self.year_month(),
    {
        &self.year_month
    }

    /// The day of the date.
    pub fn as_day(&self) -> (r: &DayOfMonth)
        ensures
            *r == self.day(),
    {
        &self.day
    }

    /// The day of the week with the given ISO number, read as a number of
    /// [`DayOfWeek`]: `Sunday` for 1 up to `Saturday` for 7.
    pub fn day_of_week_of(number: Option<u32>) -> (r: Option<DayOfWeek>)
        ensures
            r == match number {
                Some(n) => DayOfWeek::of_number(n as int),
                None => None,
            },
    {
        match number {
            Some(n) => DayOfWeek::from_u32(n),
            None => None,
        }
    }

    /// The day of the week whose number is the ISO weekday number of this
    /// date, or `None` where there is no such date.
    ///
    /// The ISO number counts from Monday as 1, the number of a [`DayOfWeek`]
    /// from Sunday as 1: the result for a Monday is `Sunday`.
    pub fn day_of_week_at_utc(&self) -> (r: Option<DayOfWeek>)
        ensures
            r == match iso_weekday(
                self.year_month().year() as int,
                self.year_month().month().month().number(),
                self.day().value(),
            ) {
                Some(n) => DayOfWeek::of_number(n),
                None => None,
            },
    {
        Self::day_of_week_of(
            iso_weekday_of(
                self.year_month.to_year(),
                self.year_month.to_month_u32(),
                self.day.to_u32(),
            ),
        )
    }

    /// The milliseconds moved by `count` steps of `step` milliseconds, where
    /// they fit in 64 bits.
    pub fn millis_shifted(millis: Option<i64>, count: i64, step: i64) -> (r: Option<i64>)
        requires
            -2_592_000_000 <= step <= 2_592_000_000,
        ensures
            Self::shifted(
                match millis {
                    Some(m) => Some(m as int),
                    None => None,
                },
                count * step,
            ) == match r {
                Some(m) => Some(m as int),
                None => None,
            },
    {
        match millis {
            Some(m) => {
                assert(-0x8000_0000_0000_0000 * 2_592_000_000 <= count * step
                    <= 0x8000_0000_0000_0000 * 2_592_000_000) by (nonlinear_arith)
                    requires
                        -0x8000_0000_0000_0000 <= count <= 0x8000_0000_0000_0000,
                        -2_592_000_000 <= step <= 2_592_000_000,
                ;
                let total: i128 = (m as i128) + (count as i128) * (step as i128);
                if -0x8000_0000_0000_0000 <= total && total <= 0x7fff_ffff_ffff_ffff {
                    Some(total as i64)
                } else {
                    None
                }
            },
            None => None,
        }
    }

    fn midnight_millis(&self) -> (r: Option<i64>)
        ensures
            utc_millis(
                self.year_month().year() as int,
                self.year_month().month().month().number(),
                self.day().value(),
                0,
                0,
                0,
                0,
            ) == match r {
                Some(m) => Some(m as int),
                None => None,
            },
    {
        utc_millis_of(
            self.year_month.to_year(),
            self.year_month.to_month_u32(),
            self.day.to_u32(),
            0,
            0,
            0,
            0,
        )
    }

    /// The date of the given fields of an instant.
    pub fn date_of(fields: Option<(i32, u32, u32, u32, u32, u32)>) -> (r: Option<Self>)
        requires
            fields matches Some(f) ==> 1 <= f.1 <= 12 && 1 <= f.2 <= 31,
        ensures
            Self::is_date_of(
                r,
                match fields {
                    Some(f) => Some(
                        (f.0 as int, f.1 as int, f.2 as int, f.3 as int, f.4 as int, f.5 as int),
                    ),
                    None => None,
                },
            ),
    {
        match fields {
            Some(f) => Some(Self::from_ymd(f.0, f.1, f.2)),
            None => None,
        }
    }

    /// The date the given number of days after this one, counted from
    /// midnight in UTC; `None` where there is no such date as this one or the
    /// calendar does not reach that far.
    pub fn add_days_utc(&self, days: i64) -> (r: Option<Self>)
        ensures
            Self::is_date_of(r, self.fields_days_later(days as int)),
    {
        match Self::millis_shifted(self.midnight_millis(), days, 86_400_000) {
            Some(m) => Self::date_of(utc_fields_of(m)),
            None => None,
        }
    }

    /// The date the given number of days before this one, counted from
    /// midnight in UTC; `None` where there is no such date as this one or the
    /// calendar does not reach that far.
    pub fn subtract_days_utc(&self, days: i64) -> (r: Option<Self>)
        ensures
            Self::is_date_of(r, self.fields_days_later(-days)),
    {
        match Self::millis_shifted(self.midnight_millis(), days, -86_400_000) {
            Some(m) => Self::date_of(utc_fields_of(m)),
            None => None,
        }
    }

    /// The date 30 days times the given number of months after this one,
    /// counted from midnight in UTC; `None` where there is no such date as
    /// this one or the calendar does not reach that far.
    pub fn add_months_utc(&self, months: i64) -> (r: Option<Self>)
        ensures
            Self::is_date_of(r, self.fields_days_later(30 * months)),
    {
        match Self::millis_shifted(self.midnight_millis(), months, 2_592_000_000) {
            Some(m) => Self::date_of(utc_fields_of(m)),
            None => None,
        }
    }

    /// The date 30 days times the given number of months before this one,
    /// counted from midnight in UTC; `None` where there is no such date as
    /// this one or the calendar does not reach that far.
    pub fn subtract_months_utc(&self, months: i64) -> (r: Option<Self>)
        ensures
            Self::is_date_of(r, self.fields_days_later(-30 * months)),
    {
        match Self::millis_shifted(self.midnight_millis(), months, -2_592_000_000) {
            Some(m) => Self::date_of(utc_fields_of(m)),
            None => None,
        }
    }

    /// This date comes after `other`.
    pub fn is_after(&self, other: &Self) -> (r: bool)
        ensures
            r == other.is_before_spec(*self),
    {
        !self.is_before(other) && !(!self.year_month.is_before(&other.year_month)
            && !self.year_month.is_after(&other.year_month) && self.day.to_u32()
            == other.day.to_u32())
    }

    /// This date comes before `other`.
    pub fn is_before(&self, other: &Self) -> (r: bool)
        ensures
            r == self.is_before_spec(*other),
    {
        if self.year_month.is_before(&other.year_month) {
            true
        } else if self.year_month.is_after(&other.year_month) {
            false
        } else {
            self.day.is_before(&other.day)
        }
    }
}

impl From<(CalendarYearMonth, DayOfMonth)> for CalendarDate {
    fn from(pair: (CalendarYearMonth, DayOfMonth)) -> (r: Self)
        ensures
            r.year_month() == pair.0,
            r.day() == pair.1,
    {
        Self::new(pair.0, pair.1)
    }
}

impl FromSpecImpl<(CalendarYearMonth, DayOfMonth)> for CalendarDate {
    open spec fn obeys_from_spec() -> bool {
        true
    }

    closed spec fn from_spec(pair: (CalendarYearMonth, DayOfMonth)) -> Self {
        CalendarDate { year_month: pair.0, day: pair.1 }
    }
}

} // verus!
