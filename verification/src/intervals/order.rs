//! What the interval algebra asks of the order of `T`, and what the order of
//! endpoints then satisfies.

use crate::intervals::interval_limit::limit_eq;
use crate::intervals::interval_limit::limit_le;
use crate::intervals::interval_limit::limit_lt;
use crate::intervals::interval_limit::limit_order;
use crate::intervals::interval_limit::IntervalLimit;
use std::cmp::Ordering;
use vstd::prelude::*;
use vstd::std_specs::cmp::PartialOrdSpec;

verus! {

/// `x` comes before `y` or is equal to it, under `T`'s order.
pub open spec fn value_le<T: PartialOrd>(x: T, y: T) -> bool {
    x.partial_cmp_spec(&y) matches Some(Ordering::Less | Ordering::Equal)
}

/// `T`'s comparison is a total order: any two values compare, a comparison
/// read backwards gives the opposite answer, and "before or equal" is
/// transitive. Being equal under the order need not mean being the same value.
pub open spec fn is_total_order<T: PartialOrd>() -> bool {
    &&& forall|x: T, y: T| (#[trigger] x.partial_cmp_spec(&y)) is Some
    &&& forall|x: T, y: T|
        (#[trigger] x.partial_cmp_spec(&y) == Some(Ordering::Less)) == (y.partial_cmp_spec(&x)
            == Some(Ordering::Greater))
    &&& forall|x: T, y: T|
        (#[trigger] x.partial_cmp_spec(&y) == Some(Ordering::Equal)) == (y.partial_cmp_spec(&x)
            == Some(Ordering::Equal))
    &&& forall|x: T, y: T, z: T|
        #![trigger x.partial_cmp_spec(&y), y.partial_cmp_spec(&z)]
        value_le(x, y) && value_le(y, z) ==> value_le(x, z)
}

/// Under a total order every value is equal to itself.
pub proof fn lemma_value_order_reflexive<T: PartialOrd>(x: T)
    requires
        is_total_order::<T>(),
    ensures
        x.partial_cmp_spec(&x) == Some(Ordering::Equal),
{
    assert(x.partial_cmp_spec(&x) is Some);
}

/// A lower endpoint without bound comes before an upper endpoint without
/// bound, and every bounded endpoint stands between the two.
pub proof fn lemma_unbounded_endpoints_are_extremes<T: PartialOrd>(
    far_left: IntervalLimit<T>,
    far_right: IntervalLimit<T>,
    bounded: IntervalLimit<T>,
)
    requires
        far_left.lower,
        far_left.value is Limitless,
        !far_right.lower,
        far_right.value is Limitless,
        bounded.value is Limit,
    ensures
        limit_lt(far_left, far_right),
        limit_lt(far_left, bounded),
        limit_lt(bounded, far_right),
{
}

/// Any two endpoints compare, and each is equal to itself.
pub proof fn lemma_limit_order_total<T: PartialOrd>(a: IntervalLimit<T>, b: IntervalLimit<T>)
    requires
        is_total_order::<T>(),
    ensures
        limit_order(a, b) is Some,
        limit_eq(a, a),
{
    if a.value is Limit {
        lemma_value_order_reflexive(a.value.value());
    }
}

/// Reading a comparison of endpoints backwards gives the opposite answer.
pub proof fn lemma_limit_order_dual<T: PartialOrd>(a: IntervalLimit<T>, b: IntervalLimit<T>)
    requires
        is_total_order::<T>(),
    ensures
        limit_lt(a, b) == (limit_order(b, a) == Some(Ordering::Greater)),
        limit_eq(a, b) == limit_eq(b, a),
{
}

/// "Before" is transitive over all endpoints.
pub proof fn lemma_limit_lt_transitive<T: PartialOrd>(
    a: IntervalLimit<T>,
    b: IntervalLimit<T>,
    c: IntervalLimit<T>,
)
    requires
        is_total_order::<T>(),
        limit_lt(a, b),
        limit_lt(b, c),
    ensures
        limit_lt(a, c),
{
}

/// Among endpoints of one role, "before or at the same place" is transitive.
///
/// Across roles it is not: at one value an open lower endpoint stands at the
/// same place as either upper endpoint, while the open upper endpoint comes
/// before the closed one.
pub proof fn lemma_limit_le_transitive<T: PartialOrd>(
    a: IntervalLimit<T>,
    b: IntervalLimit<T>,
    c: IntervalLimit<T>,
)
    requires
        is_total_order::<T>(),
        a.lower == b.lower,
        b.lower == c.lower,
        limit_le(a, b),
        limit_le(b, c),
    ensures
        limit_le(a, c),
{
}

} // verus!
