//! The interval endpoint: a boundary value with its role and its openness,
//! and the order in which endpoints stand.

use crate::intervals::limit_value::LimitValue;
use std::cmp::Ordering;
use vstd::prelude::*;
use vstd::std_specs::cmp::PartialEqSpecImpl;
use vstd::std_specs::cmp::PartialOrdSpec;
use vstd::std_specs::cmp::PartialOrdSpecImpl;

verus! {

/// One side of a range.
///
/// `lower` is the role: `true` for the left side, `false` for the right side.
/// `closed` says whether the boundary value itself belongs to the range.
/// A `Limitless` value stands for the far left in a lower endpoint and for the
/// far right in an upper endpoint.
#[derive(Debug)]
pub struct IntervalLimit<T> {
    pub closed: bool,
    pub lower: bool,
    pub value: LimitValue<T>,
}

/// The values of two bounded endpoints are equal under `T`'s order.
pub open spec fn same_value<T: PartialOrd>(x: T, y: T) -> bool {
    x.partial_cmp_spec(&y) == Some(Ordering::Equal)
}

/// The order of endpoints.
///
/// * Both unbounded: equal when the roles agree; otherwise the lower one, the
///   far left, comes first. Openness plays no part.
/// * One unbounded: it comes first when it is a lower endpoint and last when it
///   is an upper endpoint.
/// * Both bounded at equal values, same role, different openness: the closed
///   one comes after the open one.
/// * Otherwise the values decide, by `T`'s order.
///
/// Two endpoints of different roles at one value therefore compare equal
/// whatever their openness. A tie-break by openness across roles would order a
/// closed upper endpoint before an open lower endpoint at the same value, and
/// an interval written as open below and closed above a single point could
/// then not be built.
pub open spec fn limit_order<T: PartialOrd>(a: IntervalLimit<T>, b: IntervalLimit<T>) -> Option<
    Ordering,
> {
    match (a.value, b.value) {
        (LimitValue::Limitless, LimitValue::Limitless) => {
            if a.lower == b.lower {
                Some(Ordering::Equal)
            } else if a.lower {
                Some(Ordering::Less)
            } else {
                Some(Ordering::Greater)
            }
        },
        (LimitValue::Limitless, LimitValue::Limit(_)) => {
            if a.lower {
                Some(Ordering::Less)
            } else {
                Some(Ordering::Greater)
            }
        },
        (LimitValue::Limit(_), LimitValue::Limitless) => {
            if b.lower {
                Some(Ordering::Greater)
            } else {
                Some(Ordering::Less)
            }
        },
        (LimitValue::Limit(x), LimitValue::Limit(y)) => {
            if same_value(x, y) && a.lower == b.lower && a.closed != b.closed {
                if a.closed {
                    Some(Ordering::Greater)
                } else {
                    Some(Ordering::Less)
                }
            } else {
                x.partial_cmp_spec(&y)
            }
        },
    }
}

/// `a` stands before `b`.
pub open spec fn limit_lt<T: PartialOrd>(a: IntervalLimit<T>, b: IntervalLimit<T>) -> bool {
    limit_order(a, b) == Some(Ordering::Less)
}

/// `a` and `b` stand at the same place.
pub open spec fn limit_eq<T: PartialOrd>(a: IntervalLimit<T>, b: IntervalLimit<T>) -> bool {
    limit_order(a, b) == Some(Ordering::Equal)
}

/// `a` stands before `b` or at the same place.
pub open spec fn limit_le<T: PartialOrd>(a: IntervalLimit<T>, b: IntervalLimit<T>) -> bool {
    limit_lt(a, b) || limit_eq(a, b)
}

impl<T> IntervalLimit<T> {
    /// An endpoint with the given openness, role and value.
    pub fn new(closed: bool, lower: bool, value: LimitValue<T>) -> (r: Self)
        ensures
            r == (IntervalLimit { closed, lower, value }),
    {
        Self { closed, lower, value }
    }

    /// A lower endpoint.
    pub fn lower(closed: bool, value: LimitValue<T>) -> (r: Self)
        ensures
            r == (IntervalLimit { closed, lower: true, value }),
    {
        Self::new(closed, true, value)
    }

    /// An upper endpoint.
    pub fn upper(closed: bool, value: LimitValue<T>) -> (r: Self)
        ensures
            r == (IntervalLimit { closed, lower: false, value }),
    {
        Self::new(closed, false, value)
    }

    /// `t` for a lower endpoint, `f` for an upper one.
    pub fn lower_to_ordering<A>(&self, t: A, f: A) -> (r: A)
        ensures
            r == if self.lower {
                t
            } else {
                f
            },
    {
        if self.lower {
            t
        } else {
            f
        }
    }

    /// `t` for a closed endpoint, `f` for an open one.
    pub fn closed_to_ordering<A>(&self, t: A, f: A) -> (r: A)
        ensures
            r == if self.closed {
                t
            } else {
                f
            },
    {
        if self.closed {
            t
        } else {
            f
        }
    }

    /// The endpoint has no bound.
    pub fn infinity(&self) -> (r: bool)
        ensures
            r == (self.value is Limitless),
    {
        match self.value {
            LimitValue::Limitless => true,
            LimitValue::Limit(_) => false,
        }
    }

    /// The boundary value is left out of the range.
    pub fn is_open(&self) -> (r: bool)
        ensures
            r == !self.closed,
    {
        !self.closed
    }

    /// The endpoint is the right side of a range.
    pub fn is_upper(&self) -> (r: bool)
        ensures
            r == !self.lower,
    {
        !self.lower
    }
}

impl<T: Clone> Clone for IntervalLimit<T> {
    fn clone(&self) -> (r: Self)
        ensures
            r.closed == self.closed,
            r.lower == self.lower,
            crate::intervals::limit_value::limit_cloned(self.value, r.value),
    {
        Self { closed: self.closed, lower: self.lower, value: self.value.clone() }
    }
}

impl<T> Default for IntervalLimit<T> {
    fn default() -> (r: Self)
        ensures
            r == (IntervalLimit::<T> { closed: false, lower: false, value: LimitValue::Limitless }),
    {
        IntervalLimit::new(false, false, LimitValue::Limitless)
    }
}

impl<T: PartialOrd> PartialOrd for IntervalLimit<T> {
    fn partial_cmp(&self, other: &Self) -> (r: Option<Ordering>) {
        match (&self.value, &other.value) {
            (LimitValue::Limitless, LimitValue::Limitless) => {
                if self.lower == other.lower {
                    Some(Ordering::Equal)
                } else {
                    Some(self.lower_to_ordering(Ordering::Less, Ordering::Greater))
                }
            },
            (LimitValue::Limitless, LimitValue::Limit(_)) => {
                Some(self.lower_to_ordering(Ordering::Less, Ordering::Greater))
            },
            (LimitValue::Limit(_), LimitValue::Limitless) => {
                Some(other.lower_to_ordering(Ordering::Greater, Ordering::Less))
            },
            (LimitValue::Limit(lv), LimitValue::Limit(other_lv)) => {
                let by_value = lv.partial_cmp(other_lv);
                let tied = match by_value {
                    Some(Ordering::Equal) => true,
                    _ => false,
                };
                if tied && self.lower == other.lower && self.closed != other.closed {
                    Some(self.closed_to_ordering(Ordering::Greater, Ordering::Less))
                } else {
                    by_value
                }
            },
        }
    }
}

impl<T: PartialOrd> PartialOrdSpecImpl for IntervalLimit<T> {
    open spec fn obeys_partial_cmp_spec() -> bool {
        T::obeys_partial_cmp_spec()
    }

    open spec fn partial_cmp_spec(&self, other: &Self) -> Option<Ordering> {
        limit_order(*self, *other)
    }
}

impl<T: PartialOrd> PartialEq for IntervalLimit<T> {
    fn eq(&self, other: &Self) -> (r: bool) {
        match self.partial_cmp(other) {
            Some(Ordering::Equal) => true,
            _ => false,
        }
    }
}

impl<T: PartialOrd> PartialEqSpecImpl for IntervalLimit<T> {
    open spec fn obeys_eq_spec() -> bool {
        T::obeys_partial_cmp_spec()
    }

    open spec fn eq_spec(&self, other: &Self) -> bool {
        limit_eq(*self, *other)
    }
}

} // verus!
