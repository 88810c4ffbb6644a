//! The boundary value: a concrete value, or no bound at all.

use std::cmp::Ordering;
use vstd::prelude::*;
use vstd::std_specs::cmp::PartialEqSpec;
use vstd::std_specs::cmp::PartialEqSpecImpl;
use vstd::std_specs::cmp::PartialOrdSpec;
use vstd::std_specs::cmp::PartialOrdSpecImpl;

verus! {

/// What an invalid use of the interval types is answered with.
#[derive(Debug, Clone, Copy, PartialEq, Eq, Structural)]
pub enum IntervalError {
    /// A lower endpoint that does not come before or at the upper endpoint.
    InvalidRange,
    /// The value of a boundary that has none.
    UnboundedAccess,
}

/// One side's boundary: a value of `T`, or the absence of a bound.
///
/// `Limitless` carries no direction. Whether it stands for the far left or the
/// far right is decided by the endpoint that holds it.
#[derive(Debug)]
pub enum LimitValue<T> {
    Limit(T),
    Limitless,
}

impl<T> LimitValue<T> {
    /// The value is a `Limit`.
    pub open spec fn is_limit(self) -> bool {
        self is Limit
    }

    /// The value held by a `Limit`.
    pub open spec fn value(self) -> T
        recommends
            self is Limit,
    {
        self->Limit_0
    }

    /// The contained value, or `UnboundedAccess` where there is none.
    pub fn to_value(&self) -> (r: Result<&T, IntervalError>)
        ensures
            self is Limit ==> r == Ok::<&T, IntervalError>(&self.value()),
            self is Limitless ==> r == Err::<&T, IntervalError>(IntervalError::UnboundedAccess),
    {
        match self {
            LimitValue::Limit(t) => Ok(t),
            LimitValue::Limitless => Err(IntervalError::UnboundedAccess),
        }
    }

    /// The contained value, or `default` where there is none.
    pub fn to_value_or_else<'a, 'b>(&'a self, default: &'b T) -> (r: &'a T) where 'b: 'a
        ensures
            self is Limit ==> *r == self.value(),
            self is Limitless ==> *r == *default,
    {
        match self {
            LimitValue::Limit(t) => t,
            LimitValue::Limitless => default,
        }
    }
}

/// `b` may be what cloning `a` gives: the same variant, with a cloned value.
pub open spec fn limit_cloned<T: Clone>(a: LimitValue<T>, b: LimitValue<T>) -> bool {
    match (a, b) {
        (LimitValue::Limit(x), LimitValue::Limit(y)) => cloned(x, y),
        (LimitValue::Limitless, LimitValue::Limitless) => true,
        _ => false,
    }
}

impl<T: Clone> Clone for LimitValue<T> {
    fn clone(&self) -> (r: Self)
        ensures
            limit_cloned(*self, r),
    {
        match self {
            LimitValue::Limit(t) => LimitValue::Limit(t.clone()),
            LimitValue::Limitless => LimitValue::Limitless,
        }
    }
}

impl<T> Default for LimitValue<T> {
    fn default() -> (r: Self)
        ensures
            r is Limitless,
    {
        LimitValue::Limitless
    }
}

impl<T: PartialEq> PartialEq for LimitValue<T> {
    fn eq(&self, other: &Self) -> (r: bool) {
        match self {
            LimitValue::Limit(value) => match other {
                LimitValue::Limit(other_value) => value.eq(other_value),
                LimitValue::Limitless => false,
            },
            LimitValue::Limitless => match other {
                LimitValue::Limit(_) => false,
                LimitValue::Limitless => true,
            },
        }
    }
}

impl<T: PartialEq> PartialEqSpecImpl for LimitValue<T> {
    open spec fn obeys_eq_spec() -> bool {
        T::obeys_eq_spec()
    }

    open spec fn eq_spec(&self, other: &Self) -> bool {
        match (self, other) {
            (LimitValue::Limitless, LimitValue::Limitless) => true,
            (LimitValue::Limit(x), LimitValue::Limit(y)) => x.eq_spec(y),
            _ => false,
        }
    }
}

impl<T: Eq> Eq for LimitValue<T> {

}

impl<T: PartialOrd> PartialOrd for LimitValue<T> {
    fn partial_cmp(&self, other: &Self) -> (r: Option<Ordering>) {
        match self {
            LimitValue::Limit(value) => match other {
                LimitValue::Limit(other_value) => value.partial_cmp(other_value),
                LimitValue::Limitless => Some(Ordering::Greater),
            },
            LimitValue::Limitless => match other {
                LimitValue::Limit(_) => Some(Ordering::Less),
                LimitValue::Limitless => Some(Ordering::Equal),
            },
        }
    }
}

/// The bare order of boundary values: `Limitless` equals itself and comes
/// before every `Limit`; two `Limit`s compare as their values do.
///
/// This order knows no direction. Endpoints are compared by the order of
/// endpoints, which reads `Limitless` by the endpoint's role.
pub open spec fn limit_value_order<T: PartialOrd>(a: LimitValue<T>, b: LimitValue<T>) -> Option<
    Ordering,
> {
    match (a, b) {
        (LimitValue::Limit(x), LimitValue::Limit(y)) => x.partial_cmp_spec(&y),
        (LimitValue::Limit(_), LimitValue::Limitless) => Some(Ordering::Greater),
        (LimitValue::Limitless, LimitValue::Limitless) => Some(Ordering::Equal),
        (LimitValue::Limitless, LimitValue::Limit(_)) => Some(Ordering::Less),
    }
}

impl<T: PartialOrd> PartialOrdSpecImpl for LimitValue<T> {
    open spec fn obeys_partial_cmp_spec() -> bool {
        T::obeys_partial_cmp_spec()
    }

    open spec fn partial_cmp_spec(&self, other: &Self) -> Option<Ordering> {
        limit_value_order(*self, *other)
    }
}

} // verus!
