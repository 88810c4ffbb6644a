//! Units of time, each counted in milliseconds or in months.

use crate::time::time_unit_conversion_factor::TimeUnitConversionFactor;
use crate::time::integer_text;
use crate::time::integer_to_string;
use vstd::prelude::*;
use vstd::string::StringExecFns;

verus! {

/// The kinds of unit, from the finest to the coarsest.
#[derive(Debug, Clone, Copy, PartialEq, Eq, Structural, PartialOrd, Ord, Hash)]
pub enum TimeUnitType {
    Millisecond,
    Second,
    Minute,
    Hour,
    Day,
    Week,
    Month,
    Quarter,
    Year,
}

impl TimeUnitType {
    /// The kind's number, 1 for the millisecond to 9 for the year.
    pub open spec fn number(self) -> int {
        match self {
            TimeUnitType::Millisecond => 1,
            TimeUnitType::Second => 2,
            TimeUnitType::Minute => 3,
            TimeUnitType::Hour => 4,
            TimeUnitType::Day => 5,
            TimeUnitType::Week => 6,
            TimeUnitType::Month => 7,
            TimeUnitType::Quarter => 8,
            TimeUnitType::Year => 9,
        }
    }

    /// The kind's name in lower case.
    pub open spec fn name(self) -> &'static str {
        match self {
            TimeUnitType::Millisecond => "millisecond",
            TimeUnitType::Second => "second",
            TimeUnitType::Minute => "minute",
            TimeUnitType::Hour => "hour",
            TimeUnitType::Day => "day",
            TimeUnitType::Week => "week",
            TimeUnitType::Month => "month",
            TimeUnitType::Quarter => "quarter",
            TimeUnitType::Year => "year",
        }
    }

    /// The kind in which units of this kind are counted: the millisecond up
    /// to the week, the month from the month on.
    pub open spec fn base(self) -> TimeUnitType {
        match self {
            TimeUnitType::Month | TimeUnitType::Quarter | TimeUnitType::Year => TimeUnitType::Month,
            _ => TimeUnitType::Millisecond,
        }
    }

    /// How many base units make one unit of this kind.
    pub open spec fn factor(self) -> int {
        match self {
            TimeUnitType::Millisecond => 1,
            TimeUnitType::Second => 1000,
            TimeUnitType::Minute => 60_000,
            TimeUnitType::Hour => 3_600_000,
            TimeUnitType::Day => 86_400_000,
            TimeUnitType::Week => 604_800_000,
            TimeUnitType::Month => 1,
            TimeUnitType::Quarter => 3,
            TimeUnitType::Year => 12,
        }
    }

    /// The name of the factor of this kind.
    pub open spec fn factor_name(self) -> &'static str {
        match self {
            TimeUnitType::Millisecond => "identical",
            TimeUnitType::Second => "millisecondsPerSecond",
            TimeUnitType::Minute => "millisecondsPerMinute",
            TimeUnitType::Hour => "millisecondsPerHour",
            TimeUnitType::Day => "millisecondsPerDay",
            TimeUnitType::Week => "millisecondsPerWeek",
            TimeUnitType::Month => "identical",
            TimeUnitType::Quarter => "monthsPerQuarter",
            TimeUnitType::Year => "monthsPerYear",
        }
    }

    /// The kind's name in lower case.
    pub fn to_string(&self) -> (r: String)
        ensures
            r@ == self.name()@,
    {
        match *self {
            TimeUnitType::Millisecond => "millisecond".to_owned(),
            TimeUnitType::Second => "second".to_owned(),
            TimeUnitType::Minute => "minute".to_owned(),
            TimeUnitType::Hour => "hour".to_owned(),
            TimeUnitType::Day => "day".to_owned(),
            TimeUnitType::Week => "week".to_owned(),
            TimeUnitType::Month => "month".to_owned(),
            TimeUnitType::Quarter => "quarter".to_owned(),
            TimeUnitType::Year => "year".to_owned(),
        }
    }

    /// The kind's number.
    pub fn to_u32(&self) -> (r: u32)
        ensures
            r == self.number(),
    {
        match *self {
            TimeUnitType::Millisecond => 1,
            TimeUnitType::Second => 2,
            TimeUnitType::Minute => 3,
            TimeUnitType::Hour => 4,
            TimeUnitType::Day => 5,
            TimeUnitType::Week => 6,
            TimeUnitType::Month => 7,
            TimeUnitType::Quarter => 8,
            TimeUnitType::Year => 9,
        }
    }

    /// The kind's number as an `i64`; always there.
    pub fn to_i64(&self) -> (r: Option<i64>)
        ensures
            r is Some,
            r->Some_0 == self.number(),
    {
        Some(self.to_u32() as i64)
    }

    /// The kind's number as a `u64`; always there.
    pub fn to_u64(&self) -> (r: Option<u64>)
        ensures
            r is Some,
            r->Some_0 == self.number(),
    {
        Some(self.to_u32() as u64)
    }
}

/// A unit of time.
///
/// There are nine units, one of each kind; the fields are private, and every
/// unit is the one that [`TimeUnit::of`] gives for its kind.
#[derive(Debug, Clone, Copy, PartialEq, Eq, PartialOrd, Ord, Hash)]
pub struct TimeUnit {
    name: &'static str,
    value_type: TimeUnitType,
    value_base_type: TimeUnitType,
    factor: TimeUnitConversionFactor,
}

impl TimeUnit {
    /// The unit of the given kind.
    pub closed spec fn of(kind: TimeUnitType) -> TimeUnit {
        TimeUnit {
            name: kind.name(),
            value_type: kind,
            value_base_type: kind.base(),
            factor: TimeUnitConversionFactor { name: kind.factor_name(), value: kind.factor() as i64 },
        }
    }

    /// The unit's kind.
    pub closed spec fn kind(self) -> TimeUnitType {
        self.value_type
    }

    #[verifier::type_invariant]
    spec fn is_a_unit(self) -> bool {
        self == Self::of(self.value_type)
    }

    /// This is the unit of the given kind.
    pub open spec fn is_of(self, kind: TimeUnitType) -> bool {
        self == Self::of(kind) && self.kind() == kind
    }

    /// The unit of a kind has that kind: units of different kinds differ.
    pub proof fn lemma_of_kind(kind: TimeUnitType)
        ensures
            Self::of(kind).is_of(kind),
    {
    }

    /// The millisecond.
    pub fn millisecond() -> (r: Self)
        ensures
            r.is_of(TimeUnitType::Millisecond),
    {
        TimeUnit {
            name: "millisecond",
            value_type: TimeUnitType::Millisecond,
            value_base_type: TimeUnitType::Millisecond,
            factor: TimeUnitConversionFactor::identical(),
        }
    }

    /// The second.
    pub fn second() -> (r: Self)
        ensures
            r.is_of(TimeUnitType::Second),
    {
        TimeUnit {
            name: "second",
            value_type: TimeUnitType::Second,
            value_base_type: TimeUnitType::Millisecond,
            factor: TimeUnitConversionFactor::milliseconds_per_second(),
        }
    }

    /// The minute.
    pub fn minute() -> (r: Self)
        ensures
            r.is_of(TimeUnitType::Minute),
    {
        TimeUnit {
            name: "minute",
            value_type: TimeUnitType::Minute,
            value_base_type: TimeUnitType::Millisecond,
            factor: TimeUnitConversionFactor::milliseconds_per_minute(),
        }
    }

    /// The hour.
    pub fn hour() -> (r: Self)
        ensures
            r.is_of(TimeUnitType::Hour),
    {
        TimeUnit {
            name: "hour",
            value_type: TimeUnitType::Hour,
            value_base_type: TimeUnitType::Millisecond,
            factor: TimeUnitConversionFactor::milliseconds_per_hour(),
        }
    }

    /// The day.
    pub fn day() -> (r: Self)
        ensures
            r.is_of(TimeUnitType::Day),
    {
        TimeUnit {
            name: "day",
            value_type: TimeUnitType::Day,
            value_base_type: TimeUnitType::Millisecond,
            factor: TimeUnitConversionFactor::milliseconds_per_day(),
        }
    }

    /// The week.
    pub fn week() -> (r: Self)
        ensures
            r.is_of(TimeUnitType::Week),
    {
        TimeUnit {
            name: "week",
            value_type: TimeUnitType::Week,
            value_base_type: TimeUnitType::Millisecond,
            factor: TimeUnitConversionFactor::milliseconds_per_week(),
        }
    }

    /// The month.
    pub fn month() -> (r: Self)
        ensures
            r.is_of(TimeUnitType::Month),
    {
        TimeUnit {
            name: "month",
            value_type: TimeUnitType::Month,
            value_base_type: TimeUnitType::Month,
            factor: TimeUnitConversionFactor::identical(),
        }
    }

    /// The quarter.
    pub fn quarter() -> (r: Self)
        ensures
            r.is_of(TimeUnitType::Quarter),
    {
        TimeUnit {
            name: "quarter",
            value_type: TimeUnitType::Quarter,
            value_base_type: TimeUnitType::Month,
            factor: TimeUnitConversionFactor::months_per_quarter(),
        }
    }

    /// The year.
    pub fn year() -> (r: Self)
        ensures
            r.is_of(TimeUnitType::Year),
    {
        TimeUnit {
            name: "year",
            value_type: TimeUnitType::Year,
            value_base_type: TimeUnitType::Month,
            factor: TimeUnitConversionFactor::months_per_year(),
        }
    }

    /// The unit's name.
    pub fn name(&self) -> (r: &'static str)
        ensures
            r == self.kind().name(),
    {
        proof {
            use_type_invariant(self);
        }
        self.name
    }

    /// The unit's kind.
    pub fn value_type(&self) -> (r: TimeUnitType)
        ensures
            r == self.kind(),
    {
        self.value_type
    }

    /// A quantity in this unit can be expressed in `other`: the two are
    /// counted in the same base unit.
    pub fn is_convertible_to(&self, other: &Self) -> (r: bool)
        ensures
            r == (self.kind().base() == other.kind().base()),
    {
        proof {
            use_type_invariant(self);
            use_type_invariant(other);
        }
        self.value_base_type == other.value_base_type
    }

    /// A quantity in this unit can be expressed in milliseconds.
    pub fn is_convertible_to_milliseconds(&self) -> (r: bool)
        ensures
            r == (self.kind().base() == TimeUnitType::Millisecond),
    {
        self.is_convertible_to(&TimeUnit::millisecond())
    }

    /// The finest unit in which this unit can be counted.
    pub fn base_unit(&self) -> (r: TimeUnit)
        ensures
            r.is_of(self.kind().base()),
    {
        proof {
            use_type_invariant(self);
        }
        if self.value_base_type == TimeUnitType::Millisecond {
            TimeUnit::millisecond()
        } else {
            TimeUnit::month()
        }
    }

    /// The units that share this unit's base unit, from the coarsest to the
    /// finest.
    pub open spec fn descending_units_spec(self) -> Seq<TimeUnit> {
        if self.kind().base() == TimeUnitType::Millisecond {
            seq![
                Self::of(TimeUnitType::Week),
                Self::of(TimeUnitType::Day),
                Self::of(TimeUnitType::Hour),
                Self::of(TimeUnitType::Minute),
                Self::of(TimeUnitType::Second),
                Self::of(TimeUnitType::Millisecond),
            ]
        } else {
            seq![
                Self::of(TimeUnitType::Year),
                Self::of(TimeUnitType::Quarter),
                Self::of(TimeUnitType::Month),
            ]
        }
    }

    /// The units in which a quantity of this unit is shown, from the
    /// coarsest to the finest: no weeks and no quarters.
    pub open spec fn descending_units_for_display_spec(self) -> Seq<TimeUnit> {
        if self.kind().base() == TimeUnitType::Millisecond {
            seq![
                Self::of(TimeUnitType::Day),
                Self::of(TimeUnitType::Hour),
                Self::of(TimeUnitType::Minute),
                Self::of(TimeUnitType::Second),
                Self::of(TimeUnitType::Millisecond),
            ]
        } else {
            seq![Self::of(TimeUnitType::Year), Self::of(TimeUnitType::Month)]
        }
    }

    /// The kind of unit that follows the given one towards the finer units,
    /// among the kinds with the same base; none after the base kind itself.
    pub open spec fn next_finer_kind(kind: TimeUnitType) -> Option<TimeUnitType> {
        match kind {
            TimeUnitType::Week => Some(TimeUnitType::Day),
            TimeUnitType::Day => Some(TimeUnitType::Hour),
            TimeUnitType::Hour => Some(TimeUnitType::Minute),
            TimeUnitType::Minute => Some(TimeUnitType::Second),
            TimeUnitType::Second => Some(TimeUnitType::Millisecond),
            TimeUnitType::Millisecond => None,
            TimeUnitType::Year => Some(TimeUnitType::Quarter),
            TimeUnitType::Quarter => Some(TimeUnitType::Month),
            TimeUnitType::Month => None,
        }
    }

    /// The units that share this unit's base unit, from the coarsest to the
    /// finest.
    pub fn descending_units(&self) -> (r: Vec<TimeUnit>)
        ensures
            r@ == self.descending_units_spec(),
            forall|i: int| 0 <= i < r@.len() ==> (#[trigger] r@[i]).kind().base() == self.kind().base(),
    {
        let units = if self.is_convertible_to_milliseconds() {
            vec![
                TimeUnit::week(),
                TimeUnit::day(),
                TimeUnit::hour(),
                TimeUnit::minute(),
                TimeUnit::second(),
                TimeUnit::millisecond(),
            ]
        } else {
            vec![TimeUnit::year(), TimeUnit::quarter(), TimeUnit::month()]
        };
        assert(units@ =~= self.descending_units_spec());
        units
    }

    /// The units in which a quantity of this unit is shown, from the
    /// coarsest to the finest.
    pub fn descending_units_for_display(&self) -> (r: Vec<TimeUnit>)
        ensures
            r@ == self.descending_units_for_display_spec(),
            forall|i: int| 0 <= i < r@.len() ==> (#[trigger] r@[i]).kind().base() == self.kind().base(),
    {
        let units = if self.is_convertible_to_milliseconds() {
            vec![
                TimeUnit::day(),
                TimeUnit::hour(),
                TimeUnit::minute(),
                TimeUnit::second(),
                TimeUnit::millisecond(),
            ]
        } else {
            vec![TimeUnit::year(), TimeUnit::month()]
        };
        assert(units@ =~= self.descending_units_for_display_spec());
        units
    }

    /// The unit that follows this one in [`TimeUnit::descending_units`], or
    /// `None` for the last of them.
    pub fn next_finer_unit(&self) -> (r: Option<TimeUnit>)
        ensures
            r == match Self::next_finer_kind(self.kind()) {
                Some(kind) => Some(Self::of(kind)),
                None => None,
            },
            r matches Some(unit) ==> Self::next_finer_kind(self.kind()) == Some(unit.kind()),
    {
        proof {
            use_type_invariant(self);
        }
        let units = self.descending_units();
        let mut i: usize = 0;
        while i < units.len()
            invariant
                i <= units.len(),
                units@ == self.descending_units_spec(),
                forall|j: int| 0 <= j < i ==> units@[j].kind() != self.kind(),
            decreases units.len() - i,
        {
            if units[i].value_type == self.value_type {
                if i == units.len() - 1 {
                    return None;
                } else {
                    return Some(units[i + 1]);
                }
            }
            i += 1;
        }
        None
    }

    /// The quantity followed by the unit's name, in the plural unless the
    /// quantity is 1.
    pub open spec fn text_of(self, quantity: int) -> Seq<char> {
        integer_text(quantity) + " "@ + self.kind().name()@ + if quantity == 1 {
            ""@
        } else {
            "s"@
        }
    }

    /// The quantity followed by the unit's name, in the plural unless the
    /// quantity is 1: `1 hour`, `2 hours`.
    pub fn to_string(&self, quantity: i64) -> (r: String)
        ensures
            r@ == self.text_of(quantity as int),
    {
        let amount = integer_to_string(quantity);
        let spaced = amount.concat(" ");
        let kind = self.value_type.to_string();
        let named = spaced.concat(kind.as_str());
        let r = named.concat(if quantity == 1 { "" } else { "s" });
        proof {
            use_type_invariant(self);
            assert(r@ =~= self.text_of(quantity as int));
        }
        r
    }

    /// How many base units make one of this unit.
    pub fn factor(&self) -> (r: i64)
        ensures
            r == self.kind().factor(),
    {
        proof {
            use_type_invariant(self);
        }
        self.factor.value
    }
}

} // verus!
