//! The minute of the hour.

use crate::time::two_digits;
use crate::time::two_digits_spec;
use vstd::prelude::*;
use vstd::std_specs::ops::AddSpecImpl;
use vstd::std_specs::ops::SubSpecImpl;

verus! {

/// A minute from 0 to 59.
#[derive(Debug, Clone, Copy, PartialEq, Eq, Structural, PartialOrd, Hash)]
pub struct MinuteOfHour(u8);

impl MinuteOfHour {
    /// The first minute.
    pub const MIN: u8 = 0;

    /// The last minute.
    pub const MAX: u8 = 59;

    /// The minute as a number.
    pub closed spec fn value(self) -> int {
        self.0 as int
    }

    #[verifier::type_invariant]
    spec fn in_range(self) -> bool {
        self.0 <= 59
    }

    /// The minute with the given number, which is at most 59.
    pub fn new(value: u8) -> (r: Self)
        requires
            value <= MinuteOfHour::MAX,
        ensures
            r.value() == value,
    {
        Self(value)
    }

    /// The minute as a number, from 0 to 59.
    pub fn to_u8(&self) -> (r: u8)
        ensures
            r == self.value(),
            r <= 59,
    {
        proof {
            use_type_invariant(self);
        }
        self.0
    }

    /// The minute in two digits.
    pub fn to_string(&self) -> (r: String)
        ensures
            r@ == two_digits_spec(self.value()),
    {
        proof {
            use_type_invariant(self);
        }
        two_digits(self.0 as u32)
    }

    /// This minute comes after `other`.
    pub fn is_after(&self, other: &Self) -> (r: bool)
        ensures
            r == (self.value() > other.value()),
    {
        !self.is_before(other) && self.0 != other.0
    }

    /// This minute comes before `other`.
    pub fn is_before(&self, other: &Self) -> (r: bool)
        ensures
            r == (self.value() < other.value()),
    {
        self.0 < other.0
    }
}

impl core::ops::Add for MinuteOfHour {
    type Output = Self;

    /// The minute that many minutes later, where that is still a minute of
    /// the same hour.
    fn add(self, rhs: Self) -> (r: Self)
        ensures
            r.value() == self.value() + rhs.value(),
    {
        proof {
            use_type_invariant(&self);
            use_type_invariant(&rhs);
        }
        MinuteOfHour::new(self.0 + rhs.0)
    }
}

impl AddSpecImpl for MinuteOfHour {
    open spec fn obeys_add_spec() -> bool {
        true
    }

    open spec fn add_req(self, rhs: Self) -> bool {
        self.value() + rhs.value() <= 59
    }

    closed spec fn add_spec(self, rhs: Self) -> Self {
        MinuteOfHour((self.0 + rhs.0) as u8)
    }
}

impl core::ops::Sub for MinuteOfHour {
    type Output = Self;

    /// The minute that many minutes earlier, where that is still a minute of
    /// the same hour.
    fn sub(self, rhs: Self) -> (r: Self)
        ensures
            r.value() == self.value() - rhs.value(),
    {
        proof {
            use_type_invariant(&self);
            use_type_invariant(&rhs);
        }
        MinuteOfHour::new(self.0 - rhs.0)
    }
}

impl SubSpecImpl for MinuteOfHour {
    open spec fn obeys_sub_spec() -> bool {
        true
    }

    open spec fn sub_req(self, rhs: Self) -> bool {
        rhs.value() <= self.value()
    }

    closed spec fn sub_spec(self, rhs: Self) -> Self {
        MinuteOfHour((self.0 - rhs.0) as u8)
    }
}

} // verus!
