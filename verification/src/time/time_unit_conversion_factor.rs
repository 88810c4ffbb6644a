//! How many base units make one unit of time.

use vstd::prelude::*;

verus! {

/// A named factor between a unit of time and its base unit.
#[derive(Debug, Clone, Copy, PartialEq, Eq, PartialOrd, Ord, Hash)]
pub struct TimeUnitConversionFactor {
    pub name: &'static str,
    pub value: i64,
}

impl TimeUnitConversionFactor {
    /// The factor of a base unit to itself.
    pub fn identical() -> (r: Self)
        ensures
            r == (TimeUnitConversionFactor { name: "identical", value: 1 }),
    {
        TimeUnitConversionFactor { name: "identical", value: 1 }
    }

    /// Milliseconds in a second.
    pub fn milliseconds_per_second() -> (r: Self)
        ensures
            r == (TimeUnitConversionFactor { name: "millisecondsPerSecond", value: 1000 }),
    {
        TimeUnitConversionFactor { name: "millisecondsPerSecond", value: 1000 }
    }

    /// Milliseconds in a minute.
    pub fn milliseconds_per_minute() -> (r: Self)
        ensures
            r == (TimeUnitConversionFactor { name: "millisecondsPerMinute", value: 60_000 }),
    {
        TimeUnitConversionFactor { name: "millisecondsPerMinute", value: 60_000 }
    }

    /// Milliseconds in an hour.
    pub fn milliseconds_per_hour() -> (r: Self)
        ensures
            r == (TimeUnitConversionFactor { name: "millisecondsPerHour", value: 3_600_000 }),
    {
        TimeUnitConversionFactor { name: "millisecondsPerHour", value: 3_600_000 }
    }

    /// Milliseconds in a day.
    pub fn milliseconds_per_day() -> (r: Self)
        ensures
            r == (TimeUnitConversionFactor { name: "millisecondsPerDay", value: 86_400_000 }),
    {
        TimeUnitConversionFactor { name: "millisecondsPerDay", value: 86_400_000 }
    }

    /// Milliseconds in a week.
    pub fn milliseconds_per_week() -> (r: Self)
        ensures
            r == (TimeUnitConversionFactor { name: "millisecondsPerWeek", value: 604_800_000 }),
    {
        TimeUnitConversionFactor { name: "millisecondsPerWeek", value: 604_800_000 }
    }

    /// Months in a quarter.
    pub fn months_per_quarter() -> (r: Self)
        ensures
            r == (TimeUnitConversionFactor { name: "monthsPerQuarter", value: 3 }),
    {
        TimeUnitConversionFactor { name: "monthsPerQuarter", value: 3 }
    }

    /// Months in a year.
    pub fn months_per_year() -> (r: Self)
        ensures
            r == (TimeUnitConversionFactor { name: "monthsPerYear", value: 12 }),
    {
        TimeUnitConversionFactor { name: "monthsPerYear", value: 12 }
    }
}

} // verus!
