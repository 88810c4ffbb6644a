//! A month of a year.

use crate::time::day_of_month::DayOfMonth;
use crate::time::month_of_year::MonthOfYear;
use crate::time::Month;
use vstd::prelude::*;
use vstd::std_specs::convert::FromSpecImpl;

verus! {

/// A month of a given year.
#[derive(Debug, Clone, Copy, PartialEq, Eq, PartialOrd, Hash)]
pub struct CalendarYearMonth {
    year: i32,
    month: MonthOfYear,
}

impl CalendarYearMonth {
    /// The year.
    pub closed spec fn year(self) -> i32 {
        self.year
    }

    /// The month.
    pub closed spec fn month(self) -> MonthOfYear {
        self.month
    }

    /// The months counted from January of the year 0.
    pub open spec fn months(self) -> int {
        self.year() * 12 + self.month().month().number() - 1
    }

    /// This is the month with the given number of the given year, made with
    /// its last day in a common year.
    pub open spec fn is_year_month(self, year: int, month: int) -> bool {
        &&& self.year() == year
        &&& self.month().month().number() == month
        &&& self.month().last_day().value() == crate::time::month_of_year::days_in_common_year(
            self.month().month(),
        )
    }

    /// The given month of the given year.
    pub fn new(year: i32, month: MonthOfYear) -> (r: Self)
        ensures
            r.year() == year,
            r.month() == month,
    {
        Self { year, month }
    }

    /// The month with the given number, from 1 to 12, of the given year.
    pub fn from_year_and_month(year: i32, month: u32) -> (r: Self)
        requires
            1 <= month <= 12,
        ensures
            r.is_year_month(year as int, month as int),
    {
        match Month::from_u32(month) {
            Some(m) => Self::new(year, MonthOfYear::from_month(m)),
            None => Self::new(year, MonthOfYear::jan()),
        }
    }

    /// The year.
    pub fn to_year(&self) -> (r: i32)
        ensures
            r == self.year(),
    {
        self.year
    }

    /// The month with its last day.
    pub fn as_month_of_year(&self) -> (r: &MonthOfYear)
        ensures
            *r == self.month(),
    {
        &self.month
    }

    /// The month.
    pub fn as_month(&self) -> (r: &Month)
        ensures
            *r == self.month().month(),
    {
        self.month.as_value()
    }

    /// The month's number, from 1 to 12.
    pub fn to_month_u32(&self) -> (r: u32)
        ensures
            r == self.month().month().number(),
    {
        self.month.as_value().to_u32()
    }

    /// The month's last day in the given year.
    pub fn last_day_of_month_in(&self, year: i32) -> (r: DayOfMonth)
        ensures
            r.value() == self.month().last_day_in_spec(year as int),
    {
        self.month.last_day_in(year)
    }

    /// The month's last day in the current year, read from the clock in UTC.
    ///
    /// Whatever the clock says, the result is the month's last day in some
    /// year.
    pub fn as_last_day_of_month(&self) -> (r: DayOfMonth)
        ensures
            exists|year: int| r.value() == #[trigger] self.month().last_day_in_spec(year),
    {
        let r = self.month.as_last_day();
        proof {
            let year = choose|year: int| r.value() == self.month.last_day_in_spec(year);
            assert(r.value() == self.month().last_day_in_spec(year));
        }
        r
    }

    /// Moves on to the month that follows, into the next year after December.
    pub fn add_month(&mut self)
        requires
            !(old(self).month().month() == Month::December && old(self).year() == i32::MAX),
        ensures
            final(self).month().month() == MonthOfYear::next_month(old(self).month().month()),
            final(self).month().last_day().value()
                == crate::time::month_of_year::days_in_common_year(final(self).month().month()),
            final(self).year() == if old(self).month().month() == Month::December {
                old(self).year() + 1
            } else {
                old(self).year() as int
            },
            final(self).months() == old(self).months() + 1,
    {
        let (new_month, overflow) = self.month.add_with_overflow();
        self.month = new_month;
        if overflow {
            self.year += 1;
        }
    }

    /// This month comes after `other`.
    pub fn is_after(&self, other: &Self) -> (r: bool)
        ensures
            r == (self.months() > other.months()),
    {
        !self.is_before(other) && !(self.year == other.year && self.month == other.month)
    }

    /// This month comes before `other`.
    pub fn is_before(&self, other: &Self) -> (r: bool)
        ensures
            r == (self.months() < other.months()),
    {
        if self.year < other.year {
            true
        } else if self.year > other.year {
            false
        } else {
            self.month.is_before(&other.month)
        }
    }
}

impl From<(i32, MonthOfYear)> for CalendarYearMonth {
    fn from(pair: (i32, MonthOfYear)) -> (r: Self)
        ensures
            r.year() == pair.0,
            r.month() == pair.1,
    {
        Self::new(pair.0, pair.1)
    }
}

impl FromSpecImpl<(i32, MonthOfYear)> for CalendarYearMonth {
    open spec fn obeys_from_spec() -> bool {
        true
    }

    closed spec fn from_spec(pair: (i32, MonthOfYear)) -> Self {
        CalendarYearMonth { year: pair.0, month: pair.1 }
    }
}

} // verus!
