//! The hour of the day on a 24 hour clock.

use crate::time::two_digits;
use crate::time::two_digits_spec;
use vstd::prelude::*;
use vstd::std_specs::ops::AddSpecImpl;
use vstd::std_specs::ops::SubSpecImpl;

verus! {

/// An hour from 0 to 23.
#[derive(Debug, Clone, Copy, PartialEq, Eq, Structural, PartialOrd, Hash)]
pub struct HourOfDay(u32);

impl HourOfDay {
    /// The first hour.
    pub const MIN: u32 = 0;

    /// The last hour.
    pub const MAX: u32 = 23;

    /// The hour as a number.
    pub closed spec fn value(self) -> int {
        self.0 as int
    }

    #[verifier::type_invariant]
    spec fn in_range(self) -> bool {
        self.0 <= 23
    }

    /// The hour with the given number, which is at most 23.
    pub fn new(value: u32) -> (r: Self)
        requires
            value <= HourOfDay::MAX,
        ensures
            r.value() == value,
    {
        Self(value)
    }

    /// The hour as a number, from 0 to 23.
    pub fn to_u32(&self) -> (r: u32)
        ensures
            r == self.value(),
            r <= 23,
    {
        proof {
            use_type_invariant(self);
        }
        self.0
    }

    /// The hour in two digits.
    pub fn to_string(&self) -> (r: String)
        ensures
            r@ == two_digits_spec(self.value()),
    {
        proof {
            use_type_invariant(self);
        }
        two_digits(self.0)
    }

    /// This hour comes after `other`.
    pub fn is_after(&self, other: &Self) -> (r: bool)
        ensures
            r == (self.value() > other.value()),
    {
        !self.is_before(other) && self.0 != other.0
    }

    /// This hour comes before `other`.
    pub fn is_before(&self, other: &Self) -> (r: bool)
        ensures
            r == (self.value() < other.value()),
    {
        self.0 < other.0
    }
}

impl core::ops::Add for HourOfDay {
    type Output = Self;

    /// The hour that many hours later, where that is still an hour of the
    /// same day.
    fn add(self, rhs: Self) -> (r: Self)
        ensures
            r.value() == self.value() + rhs.value(),
    {
        proof {
            use_type_invariant(&self);
            use_type_invariant(&rhs);
        }
        HourOfDay::new(self.0 + rhs.0)
    }
}

impl AddSpecImpl for HourOfDay {
    open spec fn obeys_add_spec() -> bool {
        true
    }

    open spec fn add_req(self, rhs: Self) -> bool {
        self.value() + rhs.value() <= 23
    }

    closed spec fn add_spec(self, rhs: Self) -> Self {
        HourOfDay((self.0 + rhs.0) as u32)
    }
}

impl core::ops::Sub for HourOfDay {
    type Output = Self;

    /// The hour that many hours earlier, where that is still an hour of the
    /// same day.
    fn sub(self, rhs: Self) -> (r: Self)
        ensures
            r.value() == self.value() - rhs.value(),
    {
        proof {
            use_type_invariant(&self);
            use_type_invariant(&rhs);
        }
        HourOfDay::new(self.0 - rhs.0)
    }
}

impl SubSpecImpl for HourOfDay {
    open spec fn obeys_sub_spec() -> bool {
        true
    }

    open spec fn sub_req(self, rhs: Self) -> bool {
        rhs.value() <= self.value()
    }

    closed spec fn sub_spec(self, rhs: Self) -> Self {
        HourOfDay((self.0 - rhs.0) as u32)
    }
}

} // verus!
