//! The day of the month.

use crate::time::calendar_date::CalendarDate;
use crate::time::calendar_year_month::CalendarYearMonth;
use vstd::prelude::*;

verus! {

/// A day from 1 to 31.
#[derive(Debug, Clone, Copy, PartialEq, Eq, Structural, PartialOrd, Hash)]
pub struct DayOfMonth(pub(crate) u32);

impl DayOfMonth {
    /// The first day.
    pub const MIN: u32 = 1;

    /// The last day.
    pub const MAX: u32 = 31;

    /// The day as a number.
    pub closed spec fn value(self) -> int {
        self.0 as int
    }

    #[verifier::type_invariant]
    spec fn in_range(self) -> bool {
        1 <= self.0 <= 31
    }

    /// The day with the given number, which is from 1 to 31.
    pub fn new(value: u32) -> (r: Self)
        requires
            DayOfMonth::MIN <= value <= DayOfMonth::MAX,
        ensures
            r.value() == value,
    {
        Self(value)
    }

    /// The day as a number, from 1 to 31.
    pub fn to_u32(&self) -> (r: u32)
        ensures
            r == self.value(),
            1 <= r <= 31,
    {
        proof {
            use_type_invariant(self);
        }
        self.0
    }

    /// The month has this day, given the last day that the month has.
    pub fn is_appliable_up_to(&self, last_day: &DayOfMonth) -> (r: bool)
        ensures
            r == (self.value() <= last_day.value()),
    {
        !last_day.is_before(self)
    }

    /// The month has this day.
    ///
    /// The month's last day is the one that
    /// [`CalendarYearMonth::as_last_day_of_month`] gives, which reads the
    /// clock: the answer is that of [`DayOfMonth::is_appliable_up_to`] for the
    /// month's last day in some year.
    pub fn is_appliable(&self, month: CalendarYearMonth) -> (r: bool)
        ensures
            exists|year: int| r == (self.value() <= #[trigger] month.month().last_day_in_spec(year)),
    {
        let last_day = month.as_last_day_of_month();
        self.is_appliable_up_to(&last_day)
    }

    /// This day in the given month.
    pub fn on(self, month: CalendarYearMonth) -> (r: CalendarDate)
        ensures
            r.year_month() == month,
            r.day() == self,
    {
        CalendarDate::new(month, self)
    }

    /// This day comes after `other`.
    pub fn is_after(&self, other: &Self) -> (r: bool)
        ensures
            r == (self.value() > other.value()),
    {
        !self.is_before(other) && self != other
    }

    /// This day comes before `other`.
    pub fn is_before(&self, other: &Self) -> (r: bool)
        ensures
            r == (self.value() < other.value()),
    {
        self.0 < other.0
    }
}

} // verus!
