//! The month of the year with its last day.

use crate::time::calendar_year_month::CalendarYearMonth;
use crate::time::day_of_month::DayOfMonth;
use crate::time::is_leap_year;
use crate::time::is_leap_year_spec;
use crate::time::Month;
use std::cmp::Ordering;
use vstd::prelude::*;
use vstd::std_specs::cmp::PartialEqSpecImpl;
use vstd::std_specs::cmp::PartialOrdSpecImpl;

verus! {

/// A month together with the last day it has in a common year.
///
/// Two values are equal, and are ordered, by the month alone.
#[derive(Debug, Clone, Copy, Eq)]
pub struct MonthOfYear {
    last_day: DayOfMonth,
    value: Month,
}

/// The number of days of the month in a year that is no leap year.
pub open spec fn days_in_common_year(month: Month) -> int {
    match month {
        Month::February => 28,
        Month::April | Month::June | Month::September | Month::November => 30,
        _ => 31,
    }
}

/// The current year in UTC.
///
/// Reads the system clock through chrono's `Utc::now` and takes the year of
/// the date with `Datelike::year`. Nothing is claimed of the result. chrono
/// does not return where the clock stands before 1970.
#[verifier::external_body]
fn current_year_utc() -> i32 {
    chrono::Datelike::year(&chrono::Utc::now())
}

impl MonthOfYear {
    /// The month.
    pub closed spec fn month(self) -> Month {
        self.value
    }

    /// The last day the value was made with.
    pub closed spec fn last_day(self) -> DayOfMonth {
        self.last_day
    }

    /// The number of the month's last day in the given year: 29 for February
    /// in a leap year, and otherwise the last day the value was made with.
    pub open spec fn last_day_in_spec(self, year: int) -> int {
        if self.month() == Month::February && is_leap_year_spec(year) {
            29
        } else {
            self.last_day().value()
        }
    }

    /// The month that follows, January after December.
    pub open spec fn next_month(month: Month) -> Month {
        match month {
            Month::January => Month::February,
            Month::February => Month::March,
            Month::March => Month::April,
            Month::April => Month::May,
            Month::May => Month::June,
            Month::June => Month::July,
            Month::July => Month::August,
            Month::August => Month::September,
            Month::September => Month::October,
            Month::October => Month::November,
            Month::November => Month::December,
            Month::December => Month::January,
        }
    }

    /// A month with the given last day.
    pub fn new(last_day_of_this_month: DayOfMonth, calendar_value: Month) -> (r: Self)
        ensures
            r.last_day() == last_day_of_this_month,
            r.month() == calendar_value,
    {
        Self { last_day: last_day_of_this_month, value: calendar_value }
    }

    /// The month with its last day in a common year.
    pub fn from_month(month: Month) -> (r: Self)
        ensures
            r.month() == month,
            r.last_day().value() == days_in_common_year(month),
    {
        match month {
            Month::January => Self::jan(),
            Month::February => Self::feb(),
            Month::March => Self::mar(),
            Month::April => Self::apr(),
            Month::May => Self::may(),
            Month::June => Self::jun(),
            Month::July => Self::jul(),
            Month::August => Self::aug(),
            Month::September => Self::sep(),
            Month::October => Self::oct(),
            Month::November => Self::nov(),
            Month::December => Self::dec(),
        }
    }

    /// January, with 31 days.
    pub fn jan() -> (r: Self)
        ensures
            r.month() == Month::January,
            r.last_day().value() == 31,
    {
        Self { last_day: DayOfMonth::new(31), value: Month::January }
    }

    /// February, with 28 days.
    pub fn feb() -> (r: Self)
        ensures
            r.month() == Month::February,
            r.last_day().value() == 28,
    {
        Self { last_day: DayOfMonth::new(28), value: Month::February }
    }

    /// March, with 31 days.
    pub fn mar() -> (r: Self)
        ensures
            r.month() == Month::March,
            r.last_day().value() == 31,
    {
        Self { last_day: DayOfMonth::new(31), value: Month::March }
    }

    /// April, with 30 days.
    pub fn apr() -> (r: Self)
        ensures
            r.month() == Month::April,
            r.last_day().value() == 30,
    {
        Self { last_day: DayOfMonth::new(30), value: Month::April }
    }

    /// May, with 31 days.
    pub fn may() -> (r: Self)
        ensures
            r.month() == Month::May,
            r.last_day().value() == 31,
    {
        Self { last_day: DayOfMonth::new(31), value: Month::May }
    }

    /// June, with 30 days.
    pub fn jun() -> (r: Self)
        ensures
            r.month() == Month::June,
            r.last_day().value() == 30,
    {
        Self { last_day: DayOfMonth::new(30), value: Month::June }
    }

    /// July, with 31 days.
    pub fn jul() -> (r: Self)
        ensures
            r.month() == Month::July,
            r.last_day().value() == 31,
    {
        Self { last_day: DayOfMonth::new(31), value: Month::July }
    }

    /// August, with 31 days.
    pub fn aug() -> (r: Self)
        ensures
            r.month() == Month::August,
            r.last_day().value() == 31,
    {
        Self { last_day: DayOfMonth::new(31), value: Month::August }
    }

    /// September, with 30 days.
    pub fn sep() -> (r: Self)
        ensures
            r.month() == Month::September,
            r.last_day().value() == 30,
    {
        Self { last_day: DayOfMonth::new(30), value: Month::September }
    }

    /// October, with 31 days.
    pub fn oct() -> (r: Self)
        ensures
            r.month() == Month::October,
            r.last_day().value() == 31,
    {
        Self { last_day: DayOfMonth::new(31), value: Month::October }
    }

    /// November, with 30 days.
    pub fn nov() -> (r: Self)
        ensures
            r.month() == Month::November,
            r.last_day().value() == 30,
    {
        Self { last_day: DayOfMonth::new(30), value: Month::November }
    }

    /// December, with 31 days.
    pub fn dec() -> (r: Self)
        ensures
            r.month() == Month::December,
            r.last_day().value() == 31,
    {
        Self { last_day: DayOfMonth::new(31), value: Month::December }
    }

    /// The month.
    pub fn as_value(&self) -> (r: &Month)
        ensures
            *r == self.month(),
    {
        &self.value
    }

    /// The 29th, the last day of February in a leap year.
    pub fn day_of_month_29() -> (r: DayOfMonth)
        ensures
            r.value() == 29,
    {
        DayOfMonth::new(29)
    }

    /// The month's last day in the given year.
    pub fn last_day_in(&self, year: i32) -> (r: DayOfMonth)
        ensures
            r.value() == self.last_day_in_spec(year as int),
    {
        if self.value == Month::February && is_leap_year(year) {
            Self::day_of_month_29()
        } else {
            self.last_day
        }
    }

    /// The month's last day in the current year, read from the clock in UTC.
    ///
    /// Whatever the clock says, the result is the month's last day in some
    /// year: [`MonthOfYear::last_day_in`] says which for each year.
    pub fn as_last_day(&self) -> (r: DayOfMonth)
        ensures
            exists|year: int| r.value() == #[trigger] self.last_day_in_spec(year),
    {
        let year = current_year_utc();
        let r = self.last_day_in(year);
        assert(r.value() == self.last_day_in_spec(year as int));
        r
    }

    /// The month that follows, and whether it belongs to the next year.
    pub fn add_with_overflow(&self) -> (r: (Self, bool))
        ensures
            r.0.month() == Self::next_month(self.month()),
            r.0.last_day().value() == days_in_common_year(r.0.month()),
            r.1 == (self.month() == Month::December),
    {
        let month_num: u32 = self.value.to_u32() + 1;
        if month_num > Month::December.to_u32() {
            let m = Month::from_u32(month_num - Month::December.to_u32());
            match m {
                Some(m) => (Self::from_month(m), true),
                None => (Self::jan(), true),
            }
        } else {
            let m = Month::from_u32(month_num);
            match m {
                Some(m) => (Self::from_month(m), false),
                None => (Self::jan(), false),
            }
        }
    }

    /// This month in the given year.
    pub fn on(self, year: i32) -> (r: CalendarYearMonth)
        ensures
            r.year() == year,
            r.month() == self,
    {
        CalendarYearMonth::new(year, self)
    }

    /// This month comes after `other` in the year.
    pub fn is_after(&self, other: &Self) -> (r: bool)
        ensures
            r == (self.month().number() > other.month().number()),
    {
        !self.is_before(other) && self.value != other.value
    }

    /// This month comes before `other` in the year.
    pub fn is_before(&self, other: &Self) -> (r: bool)
        ensures
            r == (self.month().number() < other.month().number()),
    {
        self.value.to_u32() < other.value.to_u32()
    }
}

impl core::hash::Hash for MonthOfYear {
    /// Feeds the month, and nothing else, to the hasher, through std's
    /// `Hash::hash` for `Month`: equal values hash alike. Nothing is claimed
    /// of the hasher's state.
    #[verifier::external_body]
    fn hash<H: core::hash::Hasher>(&self, state: &mut H) {
        core::hash::Hash::hash(&self.value, state)
    }
}

impl PartialEq for MonthOfYear {
    fn eq(&self, other: &Self) -> (r: bool) {
        self.value == other.value
    }
}

impl PartialEqSpecImpl for MonthOfYear {
    open spec fn obeys_eq_spec() -> bool {
        true
    }

    open spec fn eq_spec(&self, other: &Self) -> bool {
        self.month() == other.month()
    }
}

impl PartialOrd for MonthOfYear {
    fn partial_cmp(&self, other: &Self) -> (r: Option<Ordering>) {
        let mine = self.value.to_u32();
        let theirs = other.value.to_u32();
        if mine < theirs {
            Some(Ordering::Less)
        } else if mine > theirs {
            Some(Ordering::Greater)
        } else {
            Some(Ordering::Equal)
        }
    }
}

impl PartialOrdSpecImpl for MonthOfYear {
    open spec fn obeys_partial_cmp_spec() -> bool {
        true
    }

    open spec fn partial_cmp_spec(&self, other: &Self) -> Option<Ordering> {
        if self.month().number() < other.month().number() {
            Some(Ordering::Less)
        } else if self.month().number() > other.month().number() {
            Some(Ordering::Greater)
        } else {
            Some(Ordering::Equal)
        }
    }
}

} // verus!
