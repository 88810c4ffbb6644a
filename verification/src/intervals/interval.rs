//! The interval: a pair of endpoints, with its queries.

use crate::intervals::interval_limit::limit_eq;
use crate::intervals::interval_limit::limit_le;
use crate::intervals::interval_limit::same_value;
use crate::intervals::interval_limit::IntervalLimit;
use crate::intervals::limit_value::limit_cloned;
use crate::intervals::limit_value::limit_value_order;
use crate::intervals::limit_value::IntervalError;
use crate::intervals::limit_value::LimitValue;
use std::cmp::Ordering;
use vstd::prelude::*;
use vstd::std_specs::cmp::PartialEqSpecImpl;
use vstd::std_specs::cmp::PartialOrdSpec;
use vstd::std_specs::convert::TryFromSpecImpl;

verus! {

/// A range between two endpoints.
///
/// The fields are private: an interval is only ever built by [`Interval::new`]
/// or one of the factories, each of which establishes [`Interval::wf`]. The
/// lower endpoint does not come after the upper one, and a single point is
/// never half closed.
#[derive(Debug)]
pub struct Interval<T> {
    lower: IntervalLimit<T>,
    upper: IntervalLimit<T>,
}

/// Two bounded endpoints at one value of which exactly one is open.
///
/// Such a pair denotes the single point as the closed pair does, and is
/// replaced by it on construction.
pub open spec fn half_closed_point<T: PartialOrd>(
    lower: IntervalLimit<T>,
    upper: IntervalLimit<T>,
) -> bool {
    &&& lower.value is Limit
    &&& upper.value is Limit
    &&& same_value(lower.value.value(), upper.value.value())
    &&& lower.closed != upper.closed
}

/// The endpoint as construction keeps it: closed where the pair is a half
/// closed point, unchanged otherwise.
pub open spec fn normalized<T: PartialOrd>(
    limit: IntervalLimit<T>,
    lower: IntervalLimit<T>,
    upper: IntervalLimit<T>,
) -> IntervalLimit<T> {
    if half_closed_point(lower, upper) {
        IntervalLimit { closed: true, lower: limit.lower, value: limit.value }
    } else {
        limit
    }
}

/// `r` is what construction from `lower` and `upper` gives: the interval of
/// the normalized endpoints where `lower` does not come after `upper`, and
/// `InvalidRange` otherwise.
pub open spec fn constructed<T: PartialOrd>(
    r: Result<Interval<T>, IntervalError>,
    lower: IntervalLimit<T>,
    upper: IntervalLimit<T>,
) -> bool {
    if limit_le(lower, upper) {
        &&& r is Ok
        &&& r->Ok_0.lower_endpoint() == normalized(lower, lower, upper)
        &&& r->Ok_0.upper_endpoint() == normalized(upper, lower, upper)
    } else {
        r == Err::<Interval<T>, IntervalError>(IntervalError::InvalidRange)
    }
}

impl<T> Interval<T> {
    /// The lower endpoint.
    pub closed spec fn lower_endpoint(self) -> IntervalLimit<T> {
        self.lower
    }

    /// The upper endpoint.
    pub closed spec fn upper_endpoint(self) -> IntervalLimit<T> {
        self.upper
    }
}

impl<T: PartialOrd> Interval<T> {
    /// The lower endpoint does not come after the upper one, and the interval
    /// is not a half closed point.
    pub open spec fn wf(self) -> bool {
        &&& limit_le(self.lower_endpoint(), self.upper_endpoint())
        &&& !half_closed_point(self.lower_endpoint(), self.upper_endpoint())
    }

    /// `lower` comes before `upper` or stands at the same place.
    pub fn check_lower_is_less_than_or_equal_upper(
        lower: &IntervalLimit<T>,
        upper: &IntervalLimit<T>,
    ) -> (r: bool)
        ensures
            T::obeys_partial_cmp_spec() ==> r == limit_le(*lower, *upper),
    {
        match lower.partial_cmp(upper) {
            Some(Ordering::Less) => true,
            Some(Ordering::Equal) => true,
            _ => false,
        }
    }

    /// The interval from `lower` to `upper`.
    ///
    /// Fails with `InvalidRange` unless `lower` comes before `upper` or at the
    /// same place. A half closed point is made closed on both sides.
    pub fn new(lower: IntervalLimit<T>, upper: IntervalLimit<T>) -> (r: Result<
        Self,
        IntervalError,
    >)
        ensures
            T::obeys_partial_cmp_spec() ==> constructed(r, lower, upper),
            T::obeys_partial_cmp_spec() ==> (r matches Ok(i) ==> i.wf()),
    {
        if !Self::check_lower_is_less_than_or_equal_upper(&lower, &upper) {
            return Err(IntervalError::InvalidRange);
        }
        let half_closed = match (&lower.value, &upper.value) {
            (LimitValue::Limit(l), LimitValue::Limit(u)) => {
                lower.closed != upper.closed && match l.partial_cmp(u) {
                    Some(Ordering::Equal) => true,
                    _ => false,
                }
            },
            _ => false,
        };
        if half_closed {
            Ok(
                Self {
                    lower: IntervalLimit::new(true, lower.lower, lower.value),
                    upper: IntervalLimit::new(true, upper.lower, upper.value),
                },
            )
        } else {
            Ok(Self { lower, upper })
        }
    }

    /// The interval over the given boundary values, each side closed where
    /// its flag says so.
    pub fn over(
        lower: LimitValue<T>,
        lower_included: bool,
        upper: LimitValue<T>,
        upper_included: bool,
    ) -> (r: Result<Self, IntervalError>)
        ensures
            T::obeys_partial_cmp_spec() ==> constructed_over(
                r,
                lower,
                lower_included,
                upper,
                upper_included,
            ),
            T::obeys_partial_cmp_spec() ==> (r matches Ok(i) ==> i.wf()),
    {
        Self::new(
            IntervalLimit::lower(lower_included, lower),
            IntervalLimit::upper(upper_included, upper),
        )
    }

    /// The closed interval `[lower, upper]`.
    pub fn closed(lower: LimitValue<T>, upper: LimitValue<T>) -> (r: Result<Self, IntervalError>)
        ensures
            T::obeys_partial_cmp_spec() ==> constructed_over(r, lower, true, upper, true),
            T::obeys_partial_cmp_spec() ==> (r matches Ok(i) ==> i.wf()),
    {
        Self::over(lower, true, upper, true)
    }

    /// The open interval `(lower, upper)`.
    pub fn open(lower: LimitValue<T>, upper: LimitValue<T>) -> (r: Result<Self, IntervalError>)
        ensures
            T::obeys_partial_cmp_spec() ==> constructed_over(r, lower, false, upper, false),
            T::obeys_partial_cmp_spec() ==> (r matches Ok(i) ==> i.wf()),
    {
        Self::over(lower, false, upper, false)
    }

    /// The ray `[lower, +inf)`.
    pub fn and_more(lower: LimitValue<T>) -> (r: Self)
        ensures
            r.lower_endpoint() == (IntervalLimit { closed: true, lower: true, value: lower }),
            r.upper_endpoint() == (IntervalLimit::<T> {
                closed: true,
                lower: false,
                value: LimitValue::Limitless,
            }),
            r.wf(),
            !r.is_empty_spec(),
    {
        Self {
            lower: IntervalLimit::lower(true, lower),
            upper: IntervalLimit::upper(true, LimitValue::Limitless),
        }
    }

    /// The ray `(lower, +inf)`.
    pub fn more_than(lower: LimitValue<T>) -> (r: Self)
        ensures
            r.lower_endpoint() == (IntervalLimit { closed: false, lower: true, value: lower }),
            r.upper_endpoint() == (IntervalLimit::<T> {
                closed: false,
                lower: false,
                value: LimitValue::Limitless,
            }),
            r.wf(),
            !r.is_empty_spec(),
    {
        Self {
            lower: IntervalLimit::lower(false, lower),
            upper: IntervalLimit::upper(false, LimitValue::Limitless),
        }
    }

    /// The ray `(-inf, upper)`.
    pub fn under(upper: LimitValue<T>) -> (r: Self)
        ensures
            r.lower_endpoint() == (IntervalLimit::<T> {
                closed: false,
                lower: true,
                value: LimitValue::Limitless,
            }),
            r.upper_endpoint() == (IntervalLimit { closed: false, lower: false, value: upper }),
            r.wf(),
            !r.is_empty_spec(),
    {
        Self {
            lower: IntervalLimit::lower(false, LimitValue::Limitless),
            upper: IntervalLimit::upper(false, upper),
        }
    }

    /// The ray `(-inf, upper]`.
    pub fn up_to(upper: LimitValue<T>) -> (r: Self)
        ensures
            r.lower_endpoint() == (IntervalLimit::<T> {
                closed: true,
                lower: true,
                value: LimitValue::Limitless,
            }),
            r.upper_endpoint() == (IntervalLimit { closed: true, lower: false, value: upper }),
            r.wf(),
            !r.is_empty_spec(),
    {
        Self {
            lower: IntervalLimit::lower(true, LimitValue::Limitless),
            upper: IntervalLimit::upper(true, upper),
        }
    }

    /// The interval over the given boundary values; `self` only fixes the
    /// type.
    pub fn new_of_same_type(
        &self,
        lower: LimitValue<T>,
        lower_closed: bool,
        upper: LimitValue<T>,
        upper_closed: bool,
    ) -> (r: Result<Self, IntervalError>)
        ensures
            T::obeys_partial_cmp_spec() ==> constructed_over(
                r,
                lower,
                lower_closed,
                upper,
                upper_closed,
            ),
            T::obeys_partial_cmp_spec() ==> (r matches Ok(i) ==> i.wf()),
    {
        Self::over(lower, lower_closed, upper, upper_closed)
    }

    /// The lower boundary value.
    pub fn lower_limit(&self) -> (r: &LimitValue<T>)
        ensures
            *r == self.lower_endpoint().value,
    {
        &self.lower.value
    }

    /// The upper boundary value.
    pub fn upper_limit(&self) -> (r: &LimitValue<T>)
        ensures
            *r == self.upper_endpoint().value,
    {
        &self.upper.value
    }

    /// The interval is bounded above.
    pub fn has_upper_limit(&self) -> (r: bool)
        ensures
            r == (self.upper_endpoint().value is Limit),
    {
        match self.upper_limit() {
            LimitValue::Limit(_) => true,
            LimitValue::Limitless => false,
        }
    }

    /// The interval is bounded below.
    pub fn has_lower_limit(&self) -> (r: bool)
        ensures
            r == (self.lower_endpoint().value is Limit),
    {
        match self.lower_limit() {
            LimitValue::Limit(_) => true,
            LimitValue::Limitless => false,
        }
    }

    /// The upper endpoint is closed.
    pub fn includes_upper_limit(&self) -> (r: bool)
        ensures
            r == self.upper_endpoint().closed,
    {
        self.upper.closed
    }

    /// The lower endpoint is closed.
    pub fn includes_lower_limit(&self) -> (r: bool)
        ensures
            r == self.lower_endpoint().closed,
    {
        self.lower.closed
    }

    /// Neither endpoint is closed.
    pub fn is_open(&self) -> (r: bool)
        ensures
            r == (!self.lower_endpoint().closed && !self.upper_endpoint().closed),
    {
        !self.includes_lower_limit() && !self.includes_upper_limit()
    }

    /// Both endpoints are closed.
    pub fn is_closed(&self) -> (r: bool)
        ensures
            r == (self.lower_endpoint().closed && self.upper_endpoint().closed),
    {
        self.includes_upper_limit() && self.includes_lower_limit()
    }

    /// Both sides are bounded, at values that are equal under `T`'s order.
    pub open spec fn is_point(self) -> bool {
        &&& self.lower_endpoint().value is Limit
        &&& self.upper_endpoint().value is Limit
        &&& same_value(self.lower_endpoint().value.value(), self.upper_endpoint().value.value())
    }

    /// The interval denotes the empty set: an open point.
    pub open spec fn is_empty_spec(self) -> bool {
        &&& self.is_point()
        &&& !self.lower_endpoint().closed
        &&& !self.upper_endpoint().closed
    }

    /// The interval denotes a single value: a point that is not empty.
    pub open spec fn is_single_element_spec(self) -> bool {
        self.is_point() && !self.is_empty_spec()
    }

    fn endpoints_at_one_value(&self) -> (r: bool)
        ensures
            T::obeys_partial_cmp_spec() ==> r == self.is_point(),
    {
        match (&self.lower.value, &self.upper.value) {
            (LimitValue::Limit(l), LimitValue::Limit(u)) => match l.partial_cmp(u) {
                Some(Ordering::Equal) => true,
                _ => false,
            },
            _ => false,
        }
    }

    /// The interval is empty: open on both sides of a single value.
    ///
    /// An interval without bounds is never empty.
    pub fn is_empty(&self) -> (r: bool)
        ensures
            T::obeys_partial_cmp_spec() ==> r == self.is_empty_spec(),
    {
        self.is_open() && self.endpoints_at_one_value()
    }

    /// The interval holds exactly one value.
    pub fn is_single_element(&self) -> (r: bool)
        ensures
            T::obeys_partial_cmp_spec() ==> r == self.is_single_element_spec(),
            T::obeys_partial_cmp_spec() && self.wf() && r ==> self.lower_endpoint().closed
                && self.upper_endpoint().closed,
    {
        if !self.has_upper_limit() {
            false
        } else {
            self.endpoints_at_one_value() && !self.is_empty()
        }
    }

    /// The interval lies entirely before `value`: it is bounded above, and
    /// its upper boundary value comes before `value`, or is `value` and is
    /// left out. Boundary values compare as `LimitValue`s do.
    pub open spec fn is_below_spec(self, value: LimitValue<T>) -> bool {
        &&& self.upper_endpoint().value is Limit
        &&& match limit_value_order(self.upper_endpoint().value, value) {
            Some(Ordering::Less) => true,
            Some(Ordering::Equal) => !self.upper_endpoint().closed,
            _ => false,
        }
    }

    /// The interval lies entirely after `value`: it is bounded below, and its
    /// lower boundary value comes after `value`, or is `value` and is left
    /// out. Boundary values compare as `LimitValue`s do.
    pub open spec fn is_above_spec(self, value: LimitValue<T>) -> bool {
        &&& self.lower_endpoint().value is Limit
        &&& match limit_value_order(self.lower_endpoint().value, value) {
            Some(Ordering::Greater) => true,
            Some(Ordering::Equal) => !self.lower_endpoint().closed,
            _ => false,
        }
    }

    /// `value` lies in the interval: the interval is neither entirely before
    /// nor entirely after it.
    pub open spec fn contains_spec(self, value: LimitValue<T>) -> bool {
        !self.is_below_spec(value) && !self.is_above_spec(value)
    }

    /// The interval lies entirely before `value`.
    ///
    /// Never so for an interval without upper bound.
    pub fn is_below(&self, value: &LimitValue<T>) -> (r: bool)
        ensures
            T::obeys_partial_cmp_spec() ==> r == self.is_below_spec(*value),
    {
        if !self.has_upper_limit() {
            false
        } else {
            match self.upper_limit().partial_cmp(value) {
                Some(Ordering::Less) => true,
                Some(Ordering::Equal) => !self.includes_upper_limit(),
                _ => false,
            }
        }
    }

    /// The interval lies entirely after `value`.
    ///
    /// Never so for an interval without lower bound.
    pub fn is_above(&self, value: &LimitValue<T>) -> (r: bool)
        ensures
            T::obeys_partial_cmp_spec() ==> r == self.is_above_spec(*value),
    {
        if !self.has_lower_limit() {
            false
        } else {
            match self.lower_limit().partial_cmp(value) {
                Some(Ordering::Greater) => true,
                Some(Ordering::Equal) => !self.includes_lower_limit(),
                _ => false,
            }
        }
    }

    /// `value` lies in the interval.
    pub fn contains(&self, value: &LimitValue<T>) -> (r: bool)
        ensures
            T::obeys_partial_cmp_spec() ==> r == self.contains_spec(*value),
    {
        !self.is_below(value) && !self.is_above(value)
    }

    /// Of the two lower boundary values the one further right; an unbounded
    /// one never wins against a bounded one, and `self`'s wins a tie.
    pub open spec fn greater_of_lower_limits_spec(self, other: Self) -> LimitValue<T> {
        let mine = self.lower_endpoint().value;
        let theirs = other.lower_endpoint().value;
        if mine is Limitless {
            theirs
        } else if theirs is Limitless {
            mine
        } else if limit_value_order(mine, theirs) matches Some(
            Ordering::Greater
            | Ordering::Equal,
        ) {
            mine
        } else {
            theirs
        }
    }

    /// Of the two upper boundary values the one further left; an unbounded
    /// one never wins against a bounded one, and `self`'s wins a tie.
    pub open spec fn lesser_of_upper_limits_spec(self, other: Self) -> LimitValue<T> {
        let mine = self.upper_endpoint().value;
        let theirs = other.upper_endpoint().value;
        if mine is Limitless {
            theirs
        } else if theirs is Limitless {
            mine
        } else if limit_value_order(mine, theirs) matches Some(Ordering::Less | Ordering::Equal) {
            mine
        } else {
            theirs
        }
    }

    /// The greater of the two lower boundary values.
    pub fn greater_of_lower_limits<'a, 'b>(&'a self, other: &'b Interval<T>) -> (r: &'a LimitValue<
        T,
    >) where 'b: 'a
        ensures
            T::obeys_partial_cmp_spec() ==> *r == self.greater_of_lower_limits_spec(*other),
    {
        match (&self.lower.value, &other.lower.value) {
            (LimitValue::Limitless, _) => other.lower_limit(),
            (LimitValue::Limit(_), LimitValue::Limitless) => self.lower_limit(),
            (LimitValue::Limit(mine), LimitValue::Limit(theirs)) => match mine.partial_cmp(theirs) {
                Some(Ordering::Greater) => self.lower_limit(),
                Some(Ordering::Equal) => self.lower_limit(),
                _ => other.lower_limit(),
            },
        }
    }

    /// The lesser of the two upper boundary values.
    pub fn lesser_of_upper_limits<'a, 'b>(&'a self, other: &'b Interval<T>) -> (r: &'a LimitValue<
        T,
    >) where 'b: 'a
        ensures
            T::obeys_partial_cmp_spec() ==> *r == self.lesser_of_upper_limits_spec(*other),
    {
        match (&self.upper.value, &other.upper.value) {
            (LimitValue::Limitless, _) => other.upper_limit(),
            (LimitValue::Limit(_), LimitValue::Limitless) => self.upper_limit(),
            (LimitValue::Limit(mine), LimitValue::Limit(theirs)) => match mine.partial_cmp(theirs) {
                Some(Ordering::Less) => self.upper_limit(),
                Some(Ordering::Equal) => self.upper_limit(),
                _ => other.upper_limit(),
            },
        }
    }

    /// Both intervals contain the greater of their lower boundary values.
    pub fn greater_of_lower_included_in_intersection(&self, other: &Self) -> (r: bool)
        ensures
            T::obeys_partial_cmp_spec() ==> r == (self.contains_spec(
                self.greater_of_lower_limits_spec(*other),
            ) && other.contains_spec(self.greater_of_lower_limits_spec(*other))),
    {
        let limit = self.greater_of_lower_limits(other);
        self.contains(limit) && other.contains(limit)
    }

    /// One of the intervals contains the greater of their lower boundary
    /// values.
    pub fn greater_of_lower_included_in_union(&self, other: &Self) -> (r: bool)
        ensures
            T::obeys_partial_cmp_spec() ==> r == (self.contains_spec(
                self.greater_of_lower_limits_spec(*other),
            ) || other.contains_spec(self.greater_of_lower_limits_spec(*other))),
    {
        let limit = self.greater_of_lower_limits(other);
        self.contains(limit) || other.contains(limit)
    }

    /// Both intervals contain the lesser of their upper boundary values.
    pub fn lesser_of_upper_included_in_intersection(&self, other: &Self) -> (r: bool)
        ensures
            T::obeys_partial_cmp_spec() ==> r == (self.contains_spec(
                self.lesser_of_upper_limits_spec(*other),
            ) && other.contains_spec(self.lesser_of_upper_limits_spec(*other))),
    {
        let limit = self.lesser_of_upper_limits(other);
        self.contains(limit) && other.contains(limit)
    }

    /// One of the intervals contains the lesser of their upper boundary
    /// values.
    pub fn lesser_of_upper_included_in_union(&self, other: &Self) -> (r: bool)
        ensures
            T::obeys_partial_cmp_spec() ==> r == (self.contains_spec(
                self.lesser_of_upper_limits_spec(*other),
            ) || other.contains_spec(self.lesser_of_upper_limits_spec(*other))),
    {
        let limit = self.lesser_of_upper_limits(other);
        self.contains(limit) || other.contains(limit)
    }

    /// Both boundary values are unbounded.
    pub fn equal_both_limitless(&self, me: &LimitValue<T>, your: &LimitValue<T>) -> (r: bool)
        ensures
            r == (*me is Limitless && *your is Limitless),
    {
        match (me, your) {
            (LimitValue::Limitless, LimitValue::Limitless) => true,
            _ => false,
        }
    }

    /// The two intervals overlap.
    ///
    /// Two intervals without upper bound always do. Otherwise let `g` be the
    /// greater of the lower boundary values and `l` the lesser of the upper
    /// ones: the intervals overlap where `g` comes before `l`, and where the
    /// two are equal and both intervals contain them. They do not overlap
    /// where `g` comes after `l`, nor where `T` cannot compare the two.
    pub open spec fn intersects_spec(self, other: Self) -> bool {
        if self.upper_endpoint().value is Limitless && other.upper_endpoint().value is Limitless {
            true
        } else {
            let g = self.greater_of_lower_limits_spec(other);
            let l = self.lesser_of_upper_limits_spec(other);
            match limit_value_order(g, l) {
                Some(Ordering::Less) => true,
                Some(Ordering::Equal) => {
                    &&& self.contains_spec(g)
                    &&& other.contains_spec(g)
                    &&& self.contains_spec(l)
                    &&& other.contains_spec(l)
                },
                _ => false,
            }
        }
    }

    /// The two intervals overlap.
    pub fn intersects(&self, other: &Self) -> (r: bool)
        ensures
            T::obeys_partial_cmp_spec() ==> r == self.intersects_spec(*other),
    {
        if self.equal_both_limitless(self.upper_limit(), other.upper_limit()) {
            true
        } else {
            match self.greater_of_lower_limits(other).partial_cmp(
                self.lesser_of_upper_limits(other),
            ) {
                Some(Ordering::Less) => true,
                Some(Ordering::Equal) => {
                    self.greater_of_lower_included_in_intersection(other)
                        && self.lesser_of_upper_included_in_intersection(other)
                },
                _ => false,
            }
        }
    }

    /// Part of `other` lies before this interval's lower bound: this
    /// interval is bounded below, and `other` is not, or starts at a smaller
    /// value, or starts at the same value, which `other` contains and this
    /// interval leaves out.
    pub open spec fn has_left_complement(self, other: Self) -> bool {
        let mine = self.lower_endpoint();
        let theirs = other.lower_endpoint();
        &&& mine.value is Limit
        &&& theirs.value is Limit ==> match theirs.value.value().partial_cmp_spec(
            &mine.value.value(),
        ) {
            Some(Ordering::Less) => true,
            Some(Ordering::Equal) => theirs.closed && !mine.closed,
            _ => false,
        }
    }

    /// Part of `other` lies after this interval's upper bound: this interval
    /// is bounded above, and `other` is not, or ends at a greater value, or
    /// ends at the same value, which `other` contains and this interval
    /// leaves out.
    pub open spec fn has_right_complement(self, other: Self) -> bool {
        let mine = self.upper_endpoint();
        let theirs = other.upper_endpoint();
        &&& mine.value is Limit
        &&& theirs.value is Limit ==> match mine.value.value().partial_cmp_spec(
            &theirs.value.value(),
        ) {
            Some(Ordering::Less) => true,
            Some(Ordering::Equal) => theirs.closed && !mine.closed,
            _ => false,
        }
    }

    fn starts_after(&self, other: &Self) -> (r: bool)
        ensures
            T::obeys_partial_cmp_spec() ==> r == self.has_left_complement(*other),
    {
        match (&self.lower.value, &other.lower.value) {
            (LimitValue::Limitless, _) => false,
            (LimitValue::Limit(_), LimitValue::Limitless) => true,
            (LimitValue::Limit(mine), LimitValue::Limit(theirs)) => match theirs.partial_cmp(mine) {
                Some(Ordering::Less) => true,
                Some(Ordering::Equal) => other.lower.closed && !self.lower.closed,
                _ => false,
            },
        }
    }

    fn ends_before(&self, other: &Self) -> (r: bool)
        ensures
            T::obeys_partial_cmp_spec() ==> r == self.has_right_complement(*other),
    {
        match (&self.upper.value, &other.upper.value) {
            (LimitValue::Limitless, _) => false,
            (LimitValue::Limit(_), LimitValue::Limitless) => true,
            (LimitValue::Limit(mine), LimitValue::Limit(theirs)) => match mine.partial_cmp(theirs) {
                Some(Ordering::Less) => true,
                Some(Ordering::Equal) => other.upper.closed && !self.upper.closed,
                _ => false,
            },
        }
    }
}

/// `r` holds what construction over the given boundary values gives, and is
/// `None` where that construction fails.
pub open spec fn piece_over<T: PartialOrd>(
    r: Option<Interval<T>>,
    lower: LimitValue<T>,
    lower_closed: bool,
    upper: LimitValue<T>,
    upper_closed: bool,
) -> bool {
    match r {
        Some(i) => constructed_over(
            Ok::<Interval<T>, IntervalError>(i),
            lower,
            lower_closed,
            upper,
            upper_closed,
        ),
        None => constructed_over(
            Err::<Interval<T>, IntervalError>(IntervalError::InvalidRange),
            lower,
            lower_closed,
            upper,
            upper_closed,
        ),
    }
}

/// `r` is what construction over the given boundary values gives, the lower
/// one in a lower endpoint and the upper one in an upper endpoint.
pub open spec fn constructed_over<T: PartialOrd>(
    r: Result<Interval<T>, IntervalError>,
    lower: LimitValue<T>,
    lower_closed: bool,
    upper: LimitValue<T>,
    upper_closed: bool,
) -> bool {
    constructed(
        r,
        IntervalLimit { closed: lower_closed, lower: true, value: lower },
        IntervalLimit { closed: upper_closed, lower: false, value: upper },
    )
}

impl<T: PartialOrd + Clone> Interval<T> {
    /// The interval `[element, element]`.
    ///
    /// The lower endpoint holds a clone of `element`, the upper endpoint
    /// `element` itself.
    pub fn single_element(element: LimitValue<T>) -> (r: Result<Self, IntervalError>)
        ensures
            T::obeys_partial_cmp_spec() ==> exists|c: LimitValue<T>| #[trigger]
                limit_cloned(element, c) && constructed_over(r, c, true, element, true),
            T::obeys_partial_cmp_spec() ==> (r matches Ok(i) ==> i.wf()),
    {
        let c = element.clone();
        Self::closed(c, element)
    }

    /// The open interval from this interval's lower boundary value to itself.
    ///
    /// It is empty where this interval is bounded below.
    pub fn empty_of_same_type(&self) -> (r: Result<Self, IntervalError>)
        ensures
            T::obeys_partial_cmp_spec() ==> exists|c: LimitValue<T>, d: LimitValue<T>|
                #![trigger limit_cloned(self.lower_endpoint().value, c), limit_cloned(self.lower_endpoint().value, d)]
                limit_cloned(self.lower_endpoint().value, c) && limit_cloned(
                    self.lower_endpoint().value,
                    d,
                ) && constructed_over(r, c, false, d, false),
            T::obeys_partial_cmp_spec() ==> (r matches Ok(i) ==> i.wf()),
    {
        let c = self.lower_limit().clone();
        let d = self.lower_limit().clone();
        self.new_of_same_type(c, false, d, false)
    }

    /// `r` is the left complement of this interval relative to `other`:
    /// `None` unless [`Interval::has_left_complement`] holds, and otherwise
    /// what construction gives from a clone of `other`'s lower boundary
    /// value, closed as `other` is there, to a clone of this interval's lower
    /// boundary value, closed where this interval is open.
    pub open spec fn is_left_complement(self, other: Self, r: Option<Self>) -> bool {
        if self.has_left_complement(other) {
            exists|c: LimitValue<T>, d: LimitValue<T>|
                #![trigger limit_cloned(other.lower_endpoint().value, c), limit_cloned(self.lower_endpoint().value, d)]
                limit_cloned(other.lower_endpoint().value, c) && limit_cloned(
                    self.lower_endpoint().value,
                    d,
                ) && piece_over(
                    r,
                    c,
                    other.lower_endpoint().closed,
                    d,
                    !self.lower_endpoint().closed,
                )
        } else {
            r is None
        }
    }

    /// `r` is the right complement of this interval relative to `other`:
    /// `None` unless [`Interval::has_right_complement`] holds, and otherwise
    /// what construction gives from a clone of this interval's upper
    /// boundary value, closed where this interval is open, to a clone of
    /// `other`'s upper boundary value, closed as `other` is there.
    pub open spec fn is_right_complement(self, other: Self, r: Option<Self>) -> bool {
        if self.has_right_complement(other) {
            exists|c: LimitValue<T>, d: LimitValue<T>|
                #![trigger limit_cloned(self.upper_endpoint().value, c), limit_cloned(other.upper_endpoint().value, d)]
                limit_cloned(self.upper_endpoint().value, c) && limit_cloned(
                    other.upper_endpoint().value,
                    d,
                ) && piece_over(
                    r,
                    c,
                    !self.upper_endpoint().closed,
                    d,
                    other.upper_endpoint().closed,
                )
        } else {
            r is None
        }
    }

    /// `r` is a clone of this interval: the same roles and openness, and
    /// cloned boundary values.
    pub open spec fn is_clone(self, r: Self) -> bool {
        &&& r.lower_endpoint().closed == self.lower_endpoint().closed
        &&& r.lower_endpoint().lower == self.lower_endpoint().lower
        &&& limit_cloned(self.lower_endpoint().value, r.lower_endpoint().value)
        &&& r.upper_endpoint().closed == self.upper_endpoint().closed
        &&& r.upper_endpoint().lower == self.upper_endpoint().lower
        &&& limit_cloned(self.upper_endpoint().value, r.upper_endpoint().value)
    }

    /// The part of `other` that lies before this interval's lower bound, or
    /// `None` where there is none.
    pub fn left_complement_relative_to(&self, other: &Interval<T>) -> (r: Option<Interval<T>>)
        ensures
            T::obeys_partial_cmp_spec() ==> self.is_left_complement(*other, r),
            T::obeys_partial_cmp_spec() ==> (r matches Some(i) ==> i.wf()),
    {
        if !self.starts_after(other) {
            None
        } else {
            let c = other.lower_limit().clone();
            let d = self.lower_limit().clone();
            match self.new_of_same_type(
                c,
                other.includes_lower_limit(),
                d,
                !self.includes_lower_limit(),
            ) {
                Ok(i) => Some(i),
                Err(_) => None,
            }
        }
    }

    /// The part of `other` that lies after this interval's upper bound, or
    /// `None` where there is none.
    pub fn right_complement_relative_to(&self, other: &Interval<T>) -> (r: Option<Interval<T>>)
        ensures
            T::obeys_partial_cmp_spec() ==> self.is_right_complement(*other, r),
            T::obeys_partial_cmp_spec() ==> (r matches Some(i) ==> i.wf()),
    {
        if !self.ends_before(other) {
            None
        } else {
            let c = self.upper_limit().clone();
            let d = other.upper_limit().clone();
            match self.new_of_same_type(
                c,
                !self.includes_upper_limit(),
                d,
                other.includes_upper_limit(),
            ) {
                Ok(i) => Some(i),
                Err(_) => None,
            }
        }
    }

    /// What is left of `other` when this interval is taken away: `other`
    /// itself where the two do not overlap, and otherwise the left
    /// complement and the right complement, each where there is one.
    pub open spec fn is_complement(self, other: Self, r: Seq<Self>) -> bool {
        if self.intersects_spec(other) {
            exists|left: Option<Self>, right: Option<Self>|
                #![trigger self.is_left_complement(other, left), self.is_right_complement(other, right)]
                {
                    &&& self.is_left_complement(other, left)
                    &&& self.is_right_complement(other, right)
                    &&& r == pieces(left, right)
                }
        } else {
            r.len() == 1 && other.is_clone(r[0])
        }
    }

    /// What is left of `other` when this interval is taken away, from left
    /// to right: no interval, one or two.
    pub fn complement_relative_to(&self, other: &Interval<T>) -> (r: Vec<Interval<T>>)
        ensures
            T::obeys_partial_cmp_spec() ==> self.is_complement(*other, r@),
    {
        let mut found: Vec<Interval<T>> = Vec::new();
        if !self.intersects(other) {
            found.push(other.clone());
        } else {
            let left = self.left_complement_relative_to(other);
            let right = self.right_complement_relative_to(other);
            let ghost l = left;
            let ghost rt = right;
            match left {
                Some(i) => found.push(i),
                None => {},
            }
            match right {
                Some(i) => found.push(i),
                None => {},
            }
            assert(found@ =~= pieces(l, rt));
        }
        found
    }
}

/// The intervals there are among the two, the left one first.
pub open spec fn pieces<T>(left: Option<Interval<T>>, right: Option<Interval<T>>) -> Seq<
    Interval<T>,
> {
    let first = match left {
        Some(i) => seq![i],
        None => Seq::<Interval<T>>::empty(),
    };
    let second = match right {
        Some(i) => seq![i],
        None => Seq::<Interval<T>>::empty(),
    };
    first + second
}

impl<T: PartialOrd + Default> Interval<T> {
    /// The open interval from one default value of `T` to another.
    ///
    /// It is empty where the two default values are equal under `T`'s order.
    pub fn empty() -> (r: Result<Self, IntervalError>)
        ensures
            T::obeys_partial_cmp_spec() ==> exists|a: T, b: T|
                #![trigger call_ensures(T::default, (), a), call_ensures(T::default, (), b)]
                call_ensures(T::default, (), a) && call_ensures(T::default, (), b)
                    && constructed_over(
                    r,
                    LimitValue::Limit(a),
                    false,
                    LimitValue::Limit(b),
                    false,
                ),
            T::obeys_partial_cmp_spec() ==> (r matches Ok(i) ==> i.wf()),
    {
        let a = T::default();
        let b = T::default();
        Self::open(LimitValue::Limit(a), LimitValue::Limit(b))
    }
}

impl<T: PartialOrd> TryFrom<(LimitValue<T>, bool, LimitValue<T>, bool)> for Interval<T> {
    type Error = IntervalError;

    /// The interval over the lower boundary value, closed where the first
    /// flag says so, and the upper boundary value, closed where the second
    /// flag says so: what [`Interval::over`] gives.
    fn try_from(parts: (LimitValue<T>, bool, LimitValue<T>, bool)) -> (r: Result<
        Self,
        IntervalError,
    >)
        ensures
            T::obeys_partial_cmp_spec() ==> constructed_over(
                r,
                parts.0,
                parts.1,
                parts.2,
                parts.3,
            ),
            T::obeys_partial_cmp_spec() ==> (r matches Ok(i) ==> i.wf()),
    {
        Self::over(parts.0, parts.1, parts.2, parts.3)
    }
}

impl<T: PartialOrd> TryFromSpecImpl<(LimitValue<T>, bool, LimitValue<T>, bool)> for Interval<T> {
    open spec fn obeys_try_from_spec() -> bool {
        T::obeys_partial_cmp_spec()
    }

    closed spec fn try_from_spec(parts: (LimitValue<T>, bool, LimitValue<T>, bool)) -> Result<
        Self,
        IntervalError,
    > {
        let lower = IntervalLimit { closed: parts.1, lower: true, value: parts.0 };
        let upper = IntervalLimit { closed: parts.3, lower: false, value: parts.2 };
        if limit_le(lower, upper) {
            Ok(
                Interval {
                    lower: normalized(lower, lower, upper),
                    upper: normalized(upper, lower, upper),
                },
            )
        } else {
            Err(IntervalError::InvalidRange)
        }
    }
}

impl<T> Default for Interval<T> {
    /// The interval of two default endpoints: unbounded on both sides.
    fn default() -> (r: Self)
        ensures
            r.lower_endpoint() == (IntervalLimit::<T> {
                closed: false,
                lower: false,
                value: LimitValue::Limitless,
            }),
            r.upper_endpoint() == (IntervalLimit::<T> {
                closed: false,
                lower: false,
                value: LimitValue::Limitless,
            }),
    {
        Self { lower: IntervalLimit::default(), upper: IntervalLimit::default() }
    }
}

impl<T: PartialOrd> PartialEq for Interval<T> {
    fn eq(&self, other: &Self) -> (r: bool) {
        let lowers = match self.lower.partial_cmp(&other.lower) {
            Some(Ordering::Equal) => true,
            _ => false,
        };
        let uppers = match self.upper.partial_cmp(&other.upper) {
            Some(Ordering::Equal) => true,
            _ => false,
        };
        lowers && uppers
    }
}

impl<T: PartialOrd> PartialEqSpecImpl for Interval<T> {
    open spec fn obeys_eq_spec() -> bool {
        T::obeys_partial_cmp_spec()
    }

    /// Two intervals are equal where their lower endpoints stand at the same
    /// place and their upper endpoints do.
    open spec fn eq_spec(&self, other: &Self) -> bool {
        &&& limit_eq(self.lower_endpoint(), other.lower_endpoint())
        &&& limit_eq(self.upper_endpoint(), other.upper_endpoint())
    }
}

impl<T: Clone> Clone for Interval<T> {
    fn clone(&self) -> (r: Self)
        ensures
            r.lower_endpoint().closed == self.lower_endpoint().closed,
            r.lower_endpoint().lower == self.lower_endpoint().lower,
            limit_cloned(self.lower_endpoint().value, r.lower_endpoint().value),
            r.upper_endpoint().closed == self.upper_endpoint().closed,
            r.upper_endpoint().lower == self.upper_endpoint().lower,
            limit_cloned(self.upper_endpoint().value, r.upper_endpoint().value),
    {
        Self { lower: self.lower.clone(), upper: self.upper.clone() }
    }
}

} // verus!
