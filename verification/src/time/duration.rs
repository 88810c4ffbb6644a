//! A length of time: a quantity of a unit.

use crate::time::time_point::TimePoint;
use crate::time::time_unit::TimeUnit;
use crate::time::time_unit::TimeUnitType;
use crate::util::ratio::Ratio;
use std::cmp::Ordering;
use vstd::prelude::*;
use vstd::std_specs::cmp::PartialOrdSpecImpl;
use vstd::std_specs::ops::AddSpecImpl;
use vstd::std_specs::ops::SubSpecImpl;

verus! {

/// A quantity of a unit of time.
///
/// Two durations are equal where quantity and unit are; they are compared by
/// what they amount to in base units.
#[derive(Debug, Clone, Copy, PartialEq, Eq, Hash)]
pub struct Duration {
    quantity: i64,
    unit: TimeUnit,
}

impl Duration {
    /// The quantity.
    pub closed spec fn quantity(self) -> int {
        self.quantity as int
    }

    /// The unit.
    pub closed spec fn unit(self) -> TimeUnit {
        self.unit
    }

    /// What the duration amounts to in its base unit: milliseconds or months.
    pub open spec fn base_units(self) -> int {
        self.quantity() * self.unit().kind().factor()
    }

    /// The two durations can be added and compared: they are counted in the
    /// same base unit, or one of them is zero.
    pub open spec fn convertible_with(self, other: Self) -> bool {
        self.unit().kind().base() == other.unit().kind().base() || self.quantity() == 0
            || other.quantity() == 0
    }

    /// The kind of unit of a sum or difference with `other` as the second
    /// operand: the base kind of `other`, or this duration's where `other`
    /// is zero.
    pub open spec fn result_kind(self, other: Self) -> TimeUnitType {
        if other.quantity() == 0 {
            self.unit().kind().base()
        } else {
            other.unit().kind().base()
        }
    }

    /// The unit of a sum or difference with `other` as the second operand.
    pub open spec fn result_unit(self, other: Self) -> TimeUnit {
        TimeUnit::of(self.result_kind(other))
    }

    /// The given quantity of the given unit.
    pub fn new(quantity: i64, unit: TimeUnit) -> (r: Self)
        ensures
            r.quantity() == quantity,
            r.unit() == unit,
    {
        Self { quantity, unit }
    }

    /// That many milliseconds.
    pub fn milliseconds(how_many: i64) -> (r: Self)
        ensures
            r.quantity() == how_many,
            r.unit().is_of(TimeUnitType::Millisecond),
    {
        Self::new(how_many, TimeUnit::millisecond())
    }

    /// That many seconds.
    pub fn seconds(how_many: i64) -> (r: Self)
        ensures
            r.quantity() == how_many,
            r.unit().is_of(TimeUnitType::Second),
    {
        Self::new(how_many, TimeUnit::second())
    }

    /// That many minutes.
    pub fn minutes(how_many: i64) -> (r: Self)
        ensures
            r.quantity() == how_many,
            r.unit().is_of(TimeUnitType::Minute),
    {
        Self::new(how_many, TimeUnit::minute())
    }

    /// That many hours.
    pub fn hours(how_many: i64) -> (r: Self)
        ensures
            r.quantity() == how_many,
            r.unit().is_of(TimeUnitType::Hour),
    {
        Self::new(how_many, TimeUnit::hour())
    }

    /// That many days.
    pub fn days(how_many: i64) -> (r: Self)
        ensures
            r.quantity() == how_many,
            r.unit().is_of(TimeUnitType::Day),
    {
        Self::new(how_many, TimeUnit::day())
    }

    /// That many weeks.
    pub fn weeks(how_many: i64) -> (r: Self)
        ensures
            r.quantity() == how_many,
            r.unit().is_of(TimeUnitType::Week),
    {
        Self::new(how_many, TimeUnit::week())
    }

    /// That many months.
    pub fn months(how_many: i64) -> (r: Self)
        ensures
            r.quantity() == how_many,
            r.unit().is_of(TimeUnitType::Month),
    {
        Self::new(how_many, TimeUnit::month())
    }

    /// That many quarters.
    pub fn quarters(how_many: i64) -> (r: Self)
        ensures
            r.quantity() == how_many,
            r.unit().is_of(TimeUnitType::Quarter),
    {
        Self::new(how_many, TimeUnit::quarter())
    }

    /// That many years.
    pub fn years(how_many: i64) -> (r: Self)
        ensures
            r.quantity() == how_many,
            r.unit().is_of(TimeUnitType::Year),
    {
        Self::new(how_many, TimeUnit::year())
    }

    /// What the duration amounts to in its base unit.
    pub fn in_base_units(&self) -> (r: i64)
        requires
            i64::MIN <= self.base_units() <= i64::MAX,
        ensures
            r == self.base_units(),
    {
        self.quantity * self.unit.factor()
    }

    /// This duration's unit can be converted to that of `other`.
    pub fn is_convertible_to(&self, other: &Self) -> (r: bool)
        ensures
            r == (self.unit().kind().base() == other.unit().kind().base()),
    {
        self.unit.is_convertible_to(&other.unit)
    }

    /// The amount fits in 32 bits.
    pub fn check_amount_valid(amount: i64) -> (r: bool)
        ensures
            r == (i32::MIN <= amount <= i32::MAX),
    {
        -2147483648 <= amount && amount <= 2147483647
    }

    /// The two durations can be added and compared.
    pub fn check_convertible(&self, other: &Self) -> (r: bool)
        ensures
            r == self.convertible_with(*other),
    {
        other.unit.is_convertible_to(&self.unit) || self.quantity == 0 || other.quantity == 0
    }

    /// This duration is not shorter than `other`, so that `other` can be
    /// taken away from it.
    pub fn check_greater_than_or_else(&self, other: &Self) -> (r: bool)
        ensures
            r == !(self.convertible_with(*other) && self.base_units() < other.base_units()),
    {
        match self.partial_cmp(other) {
            Some(Ordering::Greater) => false,
            _ => true,
        }
    }

    /// The sum of the two durations, in base units.
    ///
    /// The unit of the sum is the base unit of `other`, or this duration's
    /// where `other` is zero.
    pub fn add(&self, other: &Self) -> (r: Self)
        requires
            self.convertible_with(*other),
            i64::MIN <= self.base_units() <= i64::MAX,
            i64::MIN <= other.base_units() <= i64::MAX,
            i64::MIN <= self.base_units() + other.base_units() <= i64::MAX,
        ensures
            r.quantity() == self.base_units() + other.base_units(),
            r.unit() == self.result_unit(*other),
            r.unit().kind() == self.result_kind(*other),
    {
        let new_quantity = self.in_base_units() + other.in_base_units();
        Self::new(
            new_quantity,
            if other.quantity == 0 {
                self.unit.base_unit()
            } else {
                other.unit.base_unit()
            },
        )
    }

    /// The difference of the two durations, in base units, where this one
    /// is not the shorter.
    ///
    /// The unit of the difference is the base unit of `other`, or this
    /// duration's where `other` is zero.
    pub fn subtract(&self, other: &Self) -> (r: Self)
        requires
            self.convertible_with(*other),
            i64::MIN <= self.base_units() <= i64::MAX,
            i64::MIN <= other.base_units() <= i64::MAX,
            0 <= self.base_units() - other.base_units() <= i64::MAX,
        ensures
            r.quantity() == self.base_units() - other.base_units(),
            r.unit() == self.result_unit(*other),
            r.unit().kind() == self.result_kind(*other),
    {
        let new_quantity = self.in_base_units() - other.in_base_units();
        Self::new(
            new_quantity,
            if other.quantity == 0 {
                self.unit.base_unit()
            } else {
                other.unit.base_unit()
            },
        )
    }

    /// The ratio of this duration to `divisor`, both in base units, or `None`
    /// where `divisor` amounts to nothing.
    pub fn divided_by(&self, divisor: Self) -> (r: Option<Ratio>)
        requires
            self.convertible_with(divisor),
            i64::MIN <= self.base_units() <= i64::MAX,
            i64::MIN <= divisor.base_units() <= i64::MAX,
        ensures
            r is Some == (divisor.base_units() != 0),
            r matches Some(ratio) ==> ratio.numerator().mantissa() == self.base_units()
                && ratio.numerator().scale() == 0 && ratio.denominator().mantissa()
                == divisor.base_units() && ratio.denominator().scale() == 0,
    {
        Ratio::new_i64(self.in_base_units(), divisor.in_base_units())
    }

    /// The point in time this duration after `point`.
    pub fn added_to(&self, point: TimePoint) -> (r: TimePoint)
        requires
            i64::MIN <= self.base_units() <= i64::MAX,
            i64::MIN <= self.base_units() + point.0 <= i64::MAX,
        ensures
            r.0 == self.base_units() + point.0,
    {
        TimePoint::new(self.in_base_units() + point.milliseconds_from_epoc())
    }

    /// The point in time this duration before `point`.
    pub fn subtracted_from(&self, point: TimePoint) -> (r: TimePoint)
        requires
            i64::MIN < self.base_units() <= i64::MAX,
            i64::MIN <= point.0 - self.base_units() <= i64::MAX,
        ensures
            r.0 == point.0 - self.base_units(),
    {
        TimePoint::new(-self.in_base_units() + point.milliseconds_from_epoc())
    }
}

/// What a duration amounts to in its base unit, in 128 bits, where it always
/// fits.
fn wide_base_units(quantity: i64, factor: i64) -> (r: i128)
    requires
        1 <= factor <= 604_800_000,
    ensures
        r == quantity * factor,
{
    assert(-0x8000_0000_0000_0000 * 604_800_000 <= quantity * factor <= 0x8000_0000_0000_0000
        * 604_800_000) by (nonlinear_arith)
        requires
            -0x8000_0000_0000_0000 <= quantity <= 0x8000_0000_0000_0000,
            1 <= factor <= 604_800_000,
    ;
    (quantity as i128) * (factor as i128)
}

impl PartialOrd for Duration {
    /// Compares what the two durations amount to in base units.
    ///
    /// The answer is `None` where the two cannot be compared: they are
    /// counted in different base units and neither is zero. Otherwise it is
    /// `Equal` for equal amounts, `Greater` where this duration is the
    /// shorter one, and `Less` where it is the longer one.
    fn partial_cmp(&self, other: &Self) -> (r: Option<Ordering>) {
        if !self.check_convertible(other) {
            None
        } else {
            let mine = wide_base_units(self.quantity, self.unit.factor());
            let theirs = wide_base_units(other.quantity, other.unit.factor());
            if mine == theirs {
                Some(Ordering::Equal)
            } else if mine < theirs {
                Some(Ordering::Greater)
            } else {
                Some(Ordering::Less)
            }
        }
    }
}

impl PartialOrdSpecImpl for Duration {
    open spec fn obeys_partial_cmp_spec() -> bool {
        true
    }

    open spec fn partial_cmp_spec(&self, other: &Self) -> Option<Ordering> {
        duration_order(*self, *other)
    }
}

/// The order of durations, by what they amount to in base units: `None`
/// where the two cannot be compared, `Greater` for the shorter of two, `Less`
/// for the longer.
pub open spec fn duration_order(a: Duration, b: Duration) -> Option<Ordering> {
    if !a.convertible_with(b) {
        None
    } else if a.base_units() == b.base_units() {
        Some(Ordering::Equal)
    } else if a.base_units() < b.base_units() {
        Some(Ordering::Greater)
    } else {
        Some(Ordering::Less)
    }
}

impl core::ops::Add for Duration {
    type Output = Self;

    fn add(self, rhs: Self) -> (r: Self)
        ensures
            r.quantity() == self.base_units() + rhs.base_units(),
            r.unit() == self.result_unit(rhs),
            r.unit().kind() == self.result_kind(rhs),
    {
        Duration::add(&self, &rhs)
    }
}

impl AddSpecImpl for Duration {
    open spec fn obeys_add_spec() -> bool {
        true
    }

    open spec fn add_req(self, rhs: Self) -> bool {
        &&& self.convertible_with(rhs)
        &&& i64::MIN <= self.base_units() <= i64::MAX
        &&& i64::MIN <= rhs.base_units() <= i64::MAX
        &&& i64::MIN <= self.base_units() + rhs.base_units() <= i64::MAX
    }

    closed spec fn add_spec(self, rhs: Self) -> Self {
        Duration {
            quantity: (self.base_units() + rhs.base_units()) as i64,
            unit: self.result_unit(rhs),
        }
    }
}

impl core::ops::Sub for Duration {
    type Output = Self;

    fn sub(self, rhs: Self) -> (r: Self)
        ensures
            r.quantity() == self.base_units() - rhs.base_units(),
            r.unit() == self.result_unit(rhs),
            r.unit().kind() == self.result_kind(rhs),
    {
        Duration::subtract(&self, &rhs)
    }
}

impl SubSpecImpl for Duration {
    open spec fn obeys_sub_spec() -> bool {
        true
    }

    open spec fn sub_req(self, rhs: Self) -> bool {
        &&& self.convertible_with(rhs)
        &&& i64::MIN <= self.base_units() <= i64::MAX
        &&& i64::MIN <= rhs.base_units() <= i64::MAX
        &&& 0 <= self.base_units() - rhs.base_units() <= i64::MAX
    }

    closed spec fn sub_spec(self, rhs: Self) -> Self {
        Duration {
            quantity: (self.base_units() - rhs.base_units()) as i64,
            unit: self.result_unit(rhs),
        }
    }
}

} // verus!
