//! Laws of the interval algebra, over any totally ordered `T`.

use crate::intervals::interval::constructed;
use crate::intervals::interval::constructed_over;
use crate::intervals::interval::half_closed_point;
use crate::intervals::interval::normalized;
use crate::intervals::interval::piece_over;
use crate::intervals::interval::Interval;
use crate::intervals::interval_limit::limit_le;
use crate::intervals::interval_limit::same_value;
use crate::intervals::interval_limit::IntervalLimit;
use crate::intervals::limit_value::IntervalError;
use crate::intervals::limit_value::LimitValue;
use crate::intervals::order::is_total_order;
use std::cmp::Ordering;
use vstd::prelude::*;
use vstd::std_specs::cmp::PartialOrdSpec;

verus! {

/// Construction succeeds exactly on a lower endpoint that comes before the
/// upper endpoint or stands at the same place, and answers every other pair
/// with `InvalidRange`.
pub proof fn lemma_construction_succeeds_in_order<T: PartialOrd>(
    r: Result<Interval<T>, IntervalError>,
    lower: IntervalLimit<T>,
    upper: IntervalLimit<T>,
)
    requires
        constructed(r, lower, upper),
    ensures
        limit_le(lower, upper) ==> r is Ok && r->Ok_0.wf(),
        !limit_le(lower, upper) ==> r == Err::<Interval<T>, IntervalError>(
            IntervalError::InvalidRange,
        ),
{
}

/// Normalizing twice changes nothing: the normalized endpoints are no half
/// closed point, are still in order, and are their own normal form.
pub proof fn lemma_normalization_idempotent<T: PartialOrd>(
    lower: IntervalLimit<T>,
    upper: IntervalLimit<T>,
)
    requires
        limit_le(lower, upper),
    ensures
        ({
            let nl = normalized(lower, lower, upper);
            let nu = normalized(upper, lower, upper);
            &&& !half_closed_point(nl, nu)
            &&& limit_le(nl, nu)
            &&& normalized(nl, nl, nu) == nl
            &&& normalized(nu, nl, nu) == nu
        }),
{
}

/// A point that is closed on one side only becomes the closed point,
/// whichever side was open.
pub proof fn lemma_half_closed_point_is_closed<T: PartialOrd>(
    r1: Result<Interval<T>, IntervalError>,
    r2: Result<Interval<T>, IntervalError>,
    r3: Result<Interval<T>, IntervalError>,
    v: T,
)
    requires
        same_value(v, v),
        constructed_over(r1, LimitValue::Limit(v), true, LimitValue::Limit(v), false),
        constructed_over(r2, LimitValue::Limit(v), false, LimitValue::Limit(v), true),
        constructed_over(r3, LimitValue::Limit(v), true, LimitValue::Limit(v), true),
    ensures
        r1 is Ok,
        r2 is Ok,
        r3 is Ok,
        r1->Ok_0.lower_endpoint() == r3->Ok_0.lower_endpoint(),
        r1->Ok_0.upper_endpoint() == r3->Ok_0.upper_endpoint(),
        r2->Ok_0.lower_endpoint() == r3->Ok_0.lower_endpoint(),
        r2->Ok_0.upper_endpoint() == r3->Ok_0.upper_endpoint(),
        r3->Ok_0.lower_endpoint().closed,
        r3->Ok_0.upper_endpoint().closed,
        r3->Ok_0.is_single_element_spec(),
{
}

/// The open interval from a value to itself is empty; the closed one is not
/// empty and holds a single element.
pub proof fn lemma_open_point_is_empty<T: PartialOrd>(
    open: Result<Interval<T>, IntervalError>,
    closed: Result<Interval<T>, IntervalError>,
    v: T,
)
    requires
        same_value(v, v),
        constructed_over(open, LimitValue::Limit(v), false, LimitValue::Limit(v), false),
        constructed_over(closed, LimitValue::Limit(v), true, LimitValue::Limit(v), true),
    ensures
        open is Ok,
        open->Ok_0.is_empty_spec(),
        !open->Ok_0.is_single_element_spec(),
        closed is Ok,
        !closed->Ok_0.is_empty_spec(),
        closed->Ok_0.is_single_element_spec(),
{
}

/// An interval that is closed on either side, or unbounded on either side,
/// is not empty.
pub proof fn lemma_closed_or_unbounded_is_not_empty<T: PartialOrd>(x: Interval<T>)
    requires
        x.lower_endpoint().closed || x.upper_endpoint().closed || x.lower_endpoint().value
            is Limitless || x.upper_endpoint().value is Limitless,
    ensures
        !x.is_empty_spec(),
{
}

/// A closed interval contains both of its boundary values.
pub proof fn lemma_closed_contains_its_limits<T: PartialOrd>(x: Interval<T>)
    requires
        is_total_order::<T>(),
        x.wf(),
        x.lower_endpoint().closed,
        x.upper_endpoint().closed,
        x.lower_endpoint().value is Limit,
        x.upper_endpoint().value is Limit,
    ensures
        x.contains_spec(x.lower_endpoint().value),
        x.contains_spec(x.upper_endpoint().value),
{
    let a = x.lower_endpoint().value.value();
    let b = x.upper_endpoint().value.value();
    assert(a.partial_cmp_spec(&a) is Some);
    assert(b.partial_cmp_spec(&b) is Some);
    assert(a.partial_cmp_spec(&b) is Some);
    assert(b.partial_cmp_spec(&a) is Some);
}

/// An open interval contains neither of its boundary values.
pub proof fn lemma_open_excludes_its_limits<T: PartialOrd>(x: Interval<T>)
    requires
        is_total_order::<T>(),
        !x.lower_endpoint().closed,
        !x.upper_endpoint().closed,
        x.lower_endpoint().value is Limit,
        x.upper_endpoint().value is Limit,
    ensures
        !x.contains_spec(x.lower_endpoint().value),
        !x.contains_spec(x.upper_endpoint().value),
{
    let a = x.lower_endpoint().value.value();
    let b = x.upper_endpoint().value.value();
    assert(a.partial_cmp_spec(&a) is Some);
    assert(b.partial_cmp_spec(&b) is Some);
}

/// An empty interval contains nothing.
pub proof fn lemma_empty_contains_nothing<T: PartialOrd>(x: Interval<T>, value: LimitValue<T>)
    requires
        is_total_order::<T>(),
        x.is_empty_spec(),
    ensures
        !x.contains_spec(value),
{
    let a = x.lower_endpoint().value.value();
    let b = x.upper_endpoint().value.value();
    if value is Limit {
        let v = value.value();
        assert(a.partial_cmp_spec(&v) is Some);
        assert(b.partial_cmp_spec(&v) is Some);
        assert(v.partial_cmp_spec(&a) is Some);
        assert(v.partial_cmp_spec(&b) is Some);
        assert(a.partial_cmp_spec(&b) is Some);
        assert(b.partial_cmp_spec(&a) is Some);
    }
}

/// Whether two intervals overlap does not depend on which of them is asked.
pub proof fn lemma_intersects_symmetric<T: PartialOrd>(x: Interval<T>, y: Interval<T>)
    requires
        is_total_order::<T>(),
    ensures
        x.intersects_spec(y) == y.intersects_spec(x),
{
}

/// Two intervals without upper bound always overlap.
pub proof fn lemma_upward_rays_intersect<T: PartialOrd>(x: Interval<T>, y: Interval<T>)
    requires
        x.upper_endpoint().value is Limitless,
        y.upper_endpoint().value is Limitless,
    ensures
        x.intersects_spec(y),
{
}

/// `x` ends before `y` starts: both boundary values are there, and `x`'s
/// upper one comes before `y`'s lower one, or the two are equal and one of
/// the intervals leaves that value out.
pub open spec fn ends_before_start<T: PartialOrd>(x: Interval<T>, y: Interval<T>) -> bool {
    let end = x.upper_endpoint();
    let start = y.lower_endpoint();
    &&& end.value is Limit
    &&& start.value is Limit
    &&& match end.value.value().partial_cmp_spec(&start.value.value()) {
        Some(Ordering::Less) => true,
        Some(Ordering::Equal) => !(end.closed && start.closed),
        _ => false,
    }
}

/// Two intervals that are not empty overlap exactly where neither ends
/// before the other starts.
pub proof fn lemma_intersects_unless_apart<T: PartialOrd>(x: Interval<T>, y: Interval<T>)
    requires
        is_total_order::<T>(),
        x.wf(),
        y.wf(),
        !x.is_empty_spec(),
        !y.is_empty_spec(),
    ensures
        x.intersects_spec(y) == (!ends_before_start(x, y) && !ends_before_start(y, x)),
{
}

/// Where one interval ends at the value at which the other starts, the two
/// overlap exactly if both contain that value.
pub proof fn lemma_touching_intervals<T: PartialOrd>(x: Interval<T>, y: Interval<T>)
    requires
        is_total_order::<T>(),
        x.wf(),
        y.wf(),
        x.upper_endpoint().value is Limit,
        y.lower_endpoint().value is Limit,
        same_value(x.upper_endpoint().value.value(), y.lower_endpoint().value.value()),
    ensures
        x.intersects_spec(y) == (x.upper_endpoint().closed && y.lower_endpoint().closed),
{
}

/// Two intervals that contain a common value overlap.
pub proof fn lemma_common_value_intersects<T: PartialOrd>(x: Interval<T>, y: Interval<T>, v: T)
    requires
        is_total_order::<T>(),
        x.contains_spec(LimitValue::Limit(v)),
        y.contains_spec(LimitValue::Limit(v)),
    ensures
        x.intersects_spec(y),
{
}

/// For a `T` whose clones equal what they were cloned from: where part of `other` lies
/// before `x`, the left complement is there, and it contains exactly the
/// values that `other` does not lie after and that `x` lies after.
pub proof fn lemma_left_complement_members<T: PartialOrd>(
    x: Interval<T>,
    other: Interval<T>,
    r: Option<Interval<T>>,
    v: T,
)
    requires
        is_total_order::<T>(),
        x.has_left_complement(other),
        piece_over(
            r,
            other.lower_endpoint().value,
            other.lower_endpoint().closed,
            x.lower_endpoint().value,
            !x.lower_endpoint().closed,
        ),
    ensures
        r is Some,
        r->Some_0.contains_spec(LimitValue::Limit(v)) == (!other.is_above_spec(
            LimitValue::Limit(v),
        ) && x.is_above_spec(LimitValue::Limit(v))),
{
}

/// Where no part of `other` lies before `x`, there is no value that `other`
/// does not lie after and that `x` lies after.
pub proof fn lemma_no_left_complement<T: PartialOrd>(x: Interval<T>, other: Interval<T>, v: T)
    requires
        is_total_order::<T>(),
        !x.has_left_complement(other),
    ensures
        !(!other.is_above_spec(LimitValue::Limit(v)) && x.is_above_spec(LimitValue::Limit(v))),
{
}

/// For a `T` whose clones equal what they were cloned from: where part of `other` lies
/// after `x`, the right complement is there, and it contains exactly the
/// values that `other` does not lie before and that `x` lies before.
pub proof fn lemma_right_complement_members<T: PartialOrd>(
    x: Interval<T>,
    other: Interval<T>,
    r: Option<Interval<T>>,
    v: T,
)
    requires
        is_total_order::<T>(),
        x.has_right_complement(other),
        piece_over(
            r,
            x.upper_endpoint().value,
            !x.upper_endpoint().closed,
            other.upper_endpoint().value,
            other.upper_endpoint().closed,
        ),
    ensures
        r is Some,
        r->Some_0.contains_spec(LimitValue::Limit(v)) == (!other.is_below_spec(
            LimitValue::Limit(v),
        ) && x.is_below_spec(LimitValue::Limit(v))),
{
}

/// Where no part of `other` lies after `x`, there is no value that `other`
/// does not lie before and that `x` lies before.
pub proof fn lemma_no_right_complement<T: PartialOrd>(x: Interval<T>, other: Interval<T>, v: T)
    requires
        is_total_order::<T>(),
        !x.has_right_complement(other),
    ensures
        !(!other.is_below_spec(LimitValue::Limit(v)) && x.is_below_spec(LimitValue::Limit(v))),
{
}

/// For a `T` whose clones equal what they were cloned from: where two intervals
/// overlap, the left and the right complement together contain exactly the
/// values of `other` that `x` does not contain.
pub proof fn lemma_complement_members<T: PartialOrd>(
    x: Interval<T>,
    other: Interval<T>,
    left: Option<Interval<T>>,
    right: Option<Interval<T>>,
    v: T,
)
    requires
        is_total_order::<T>(),
        x.wf(),
        other.wf(),
        x.intersects_spec(other),
        if x.has_left_complement(other) {
            piece_over(
                left,
                other.lower_endpoint().value,
                other.lower_endpoint().closed,
                x.lower_endpoint().value,
                !x.lower_endpoint().closed,
            )
        } else {
            left is None
        },
        if x.has_right_complement(other) {
            piece_over(
                right,
                x.upper_endpoint().value,
                !x.upper_endpoint().closed,
                other.upper_endpoint().value,
                other.upper_endpoint().closed,
            )
        } else {
            right is None
        },
    ensures
        ((left is Some && left->Some_0.contains_spec(LimitValue::Limit(v))) || (right is Some
            && right->Some_0.contains_spec(LimitValue::Limit(v)))) == (other.contains_spec(
            LimitValue::Limit(v),
        ) && !x.contains_spec(LimitValue::Limit(v))),
{
}

/// Where two intervals do not overlap, none of the values of `other` lies in
/// `x`: all of `other` is left when `x` is taken away.
pub proof fn lemma_complement_of_disjoint<T: PartialOrd>(x: Interval<T>, other: Interval<T>, v: T)
    requires
        is_total_order::<T>(),
        !x.intersects_spec(other),
        other.contains_spec(LimitValue::Limit(v)),
    ensures
        !x.contains_spec(LimitValue::Limit(v)),
{
}

} // verus!
