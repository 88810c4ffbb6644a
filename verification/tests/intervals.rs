use baseunits_rs::intervals::Interval;
use baseunits_rs::intervals::IntervalError;
use baseunits_rs::intervals::IntervalLimit;
use baseunits_rs::intervals::LimitValue;
use std::cmp::Ordering;

fn closed(a: i32, b: i32) -> Interval<i32> {
    Interval::closed(LimitValue::Limit(a), LimitValue::Limit(b)).unwrap()
}

fn open(a: i32, b: i32) -> Interval<i32> {
    Interval::open(LimitValue::Limit(a), LimitValue::Limit(b)).unwrap()
}

fn over(a: i32, a_closed: bool, b: i32, b_closed: bool) -> Interval<i32> {
    Interval::over(LimitValue::Limit(a), a_closed, LimitValue::Limit(b), b_closed).unwrap()
}

#[test]
fn test_test() {
    let empty = Interval::<i32>::empty().unwrap();
    assert_eq!(empty.is_empty(), true);
    println!("{:?}", empty);
}

#[test]
fn test_lower() {
    assert_eq!(
        IntervalLimit::lower(false, LimitValue::Limit(10)),
        IntervalLimit::lower(false, LimitValue::Limit(10))
    );
    assert_ne!(
        IntervalLimit::lower(false, LimitValue::Limit(10)),
        IntervalLimit::lower(true, LimitValue::Limit(10))
    );
    assert_ne!(
        IntervalLimit::lower(true, LimitValue::Limit(10)),
        IntervalLimit::lower(false, LimitValue::Limit(10))
    );
    assert_eq!(
        IntervalLimit::lower(true, LimitValue::Limit(10)),
        IntervalLimit::lower(true, LimitValue::Limit(10))
    );
}

#[test]
fn test_upper() {
    assert_eq!(
        IntervalLimit::upper(false, LimitValue::Limit(10)),
        IntervalLimit::upper(false, LimitValue::Limit(10))
    );
    assert_ne!(
        IntervalLimit::upper(false, LimitValue::Limit(10)),
        IntervalLimit::upper(true, LimitValue::Limit(10))
    );
    assert_ne!(
        IntervalLimit::upper(true, LimitValue::Limit(10)),
        IntervalLimit::upper(false, LimitValue::Limit(10))
    );
    assert_eq!(
        IntervalLimit::upper(true, LimitValue::Limit(10)),
        IntervalLimit::upper(true, LimitValue::Limit(10))
    );
}

#[test]
fn limit_value_to_value() {
    assert_eq!(LimitValue::Limit(7).to_value(), Ok(&7));
    assert_eq!(
        LimitValue::<i32>::Limitless.to_value(),
        Err(IntervalError::UnboundedAccess)
    );
}

#[test]
fn limit_value_to_value_or_else() {
    assert_eq!(*LimitValue::Limit(7).to_value_or_else(&0), 7);
    assert_eq!(*LimitValue::<i32>::Limitless.to_value_or_else(&42), 42);
}

#[test]
fn limit_value_bare_order() {
    let none = LimitValue::<i32>::Limitless;
    assert_eq!(none.partial_cmp(&LimitValue::Limitless), Some(Ordering::Equal));
    assert_eq!(LimitValue::Limit(-5).partial_cmp(&none), Some(Ordering::Greater));
    assert_eq!(none.partial_cmp(&LimitValue::Limit(-5)), Some(Ordering::Less));
    assert_eq!(
        LimitValue::Limit(1).partial_cmp(&LimitValue::Limit(2)),
        Some(Ordering::Less)
    );
    assert_eq!(LimitValue::Limit(3), LimitValue::Limit(3));
    assert_ne!(LimitValue::Limit(3), LimitValue::Limitless);
    assert_eq!(LimitValue::<i32>::default(), LimitValue::Limitless);
}

#[test]
fn limit_value_clone_keeps_value() {
    assert_eq!(LimitValue::Limit(9).clone(), LimitValue::Limit(9));
    assert_eq!(LimitValue::<i32>::Limitless.clone(), LimitValue::Limitless);
}

#[test]
fn endpoint_order_unbounded() {
    let far_left = IntervalLimit::<i32>::lower(false, LimitValue::Limitless);
    let far_right = IntervalLimit::<i32>::upper(false, LimitValue::Limitless);
    let far_left_closed = IntervalLimit::<i32>::lower(true, LimitValue::Limitless);
    assert_eq!(far_left.partial_cmp(&far_right), Some(Ordering::Less));
    assert_eq!(far_right.partial_cmp(&far_left), Some(Ordering::Greater));
    assert_eq!(far_left.partial_cmp(&far_left_closed), Some(Ordering::Equal));
    let five = IntervalLimit::lower(true, LimitValue::Limit(5));
    assert_eq!(far_left.partial_cmp(&five), Some(Ordering::Less));
    assert_eq!(five.partial_cmp(&far_left), Some(Ordering::Greater));
    assert_eq!(far_right.partial_cmp(&five), Some(Ordering::Greater));
    assert_eq!(five.partial_cmp(&far_right), Some(Ordering::Less));
}

#[test]
fn endpoint_order_same_role_tie_break() {
    let open_lower = IntervalLimit::lower(false, LimitValue::Limit(10));
    let closed_lower = IntervalLimit::lower(true, LimitValue::Limit(10));
    assert_eq!(open_lower.partial_cmp(&closed_lower), Some(Ordering::Less));
    assert_eq!(closed_lower.partial_cmp(&open_lower), Some(Ordering::Greater));
    let open_upper = IntervalLimit::upper(false, LimitValue::Limit(10));
    let closed_upper = IntervalLimit::upper(true, LimitValue::Limit(10));
    assert_eq!(open_upper.partial_cmp(&closed_upper), Some(Ordering::Less));
    assert_eq!(closed_upper.partial_cmp(&open_upper), Some(Ordering::Greater));
}

#[test]
fn endpoint_order_different_roles_at_one_value_are_equal() {
    let open_lower = IntervalLimit::lower(false, LimitValue::Limit(10));
    let closed_lower = IntervalLimit::lower(true, LimitValue::Limit(10));
    let open_upper = IntervalLimit::upper(false, LimitValue::Limit(10));
    let closed_upper = IntervalLimit::upper(true, LimitValue::Limit(10));
    assert_eq!(open_lower.partial_cmp(&closed_upper), Some(Ordering::Equal));
    assert_eq!(closed_upper.partial_cmp(&open_lower), Some(Ordering::Equal));
    assert_eq!(closed_lower.partial_cmp(&open_upper), Some(Ordering::Equal));
    assert_eq!(open_lower.partial_cmp(&open_upper), Some(Ordering::Equal));
    assert_eq!(closed_lower.partial_cmp(&closed_upper), Some(Ordering::Equal));
    assert_eq!(open_lower, closed_upper);
}

#[test]
fn endpoint_order_by_value() {
    let three = IntervalLimit::lower(true, LimitValue::Limit(3));
    let four = IntervalLimit::upper(false, LimitValue::Limit(4));
    assert_eq!(three.partial_cmp(&four), Some(Ordering::Less));
    assert_eq!(four.partial_cmp(&three), Some(Ordering::Greater));
}

#[test]
fn endpoint_predicates() {
    let e = IntervalLimit::new(true, false, LimitValue::Limit(1));
    assert!(!e.infinity());
    assert!(!e.is_open());
    assert!(e.is_upper());
    let d = IntervalLimit::<i32>::default();
    assert!(d.infinity());
    assert!(d.is_open());
    assert!(d.is_upper());
    assert_eq!(e.lower_to_ordering(1, 2), 2);
    assert_eq!(e.closed_to_ordering(1, 2), 1);
}

#[test]
fn new_accepts_endpoints_in_order() {
    let r = Interval::new(
        IntervalLimit::lower(true, LimitValue::Limit(1)),
        IntervalLimit::upper(true, LimitValue::Limit(1)),
    );
    assert!(r.is_ok());
    let r = Interval::new(
        IntervalLimit::lower(true, LimitValue::Limit(1)),
        IntervalLimit::upper(false, LimitValue::Limit(2)),
    );
    assert!(r.is_ok());
    assert!(Interval::<i32>::check_lower_is_less_than_or_equal_upper(
        &IntervalLimit::lower(true, LimitValue::Limit(1)),
        &IntervalLimit::upper(false, LimitValue::Limit(2)),
    ));
}

#[test]
fn new_rejects_endpoints_out_of_order() {
    let r = Interval::new(
        IntervalLimit::lower(true, LimitValue::Limit(2)),
        IntervalLimit::upper(true, LimitValue::Limit(1)),
    );
    assert_eq!(r.err(), Some(IntervalError::InvalidRange));
    let r = Interval::<i32>::new(
        IntervalLimit::upper(true, LimitValue::Limitless),
        IntervalLimit::lower(true, LimitValue::Limitless),
    );
    assert_eq!(r.err(), Some(IntervalError::InvalidRange));
    assert_eq!(
        Interval::closed(LimitValue::Limit(10), LimitValue::Limit(1)).err(),
        Some(IntervalError::InvalidRange)
    );
}

#[test]
fn half_closed_point_is_made_closed() {
    let a = over(5, true, 5, false);
    let b = over(5, false, 5, true);
    let c = closed(5, 5);
    assert!(a.is_closed());
    assert!(b.is_closed());
    assert!(a.includes_lower_limit() && a.includes_upper_limit());
    assert!(b.includes_lower_limit() && b.includes_upper_limit());
    assert_eq!(a, c);
    assert_eq!(b, c);
    assert!(a.is_single_element());
    assert!(b.is_single_element());
    assert_eq!(a.lower_limit(), &LimitValue::Limit(5));
    assert_eq!(a.upper_limit(), &LimitValue::Limit(5));
}

#[test]
fn normalizing_again_changes_nothing() {
    let a = over(5, true, 5, false);
    let again = Interval::over(
        a.lower_limit().clone(),
        a.includes_lower_limit(),
        a.upper_limit().clone(),
        a.includes_upper_limit(),
    )
    .unwrap();
    assert_eq!(again, a);
    assert!(again.is_closed());
}

#[test]
fn empty_law() {
    assert!(open(4, 4).is_empty());
    assert!(!open(4, 4).is_single_element());
    assert!(!closed(4, 4).is_empty());
    assert!(closed(4, 4).is_single_element());
    assert!(!Interval::and_more(LimitValue::Limit(4)).is_empty());
    assert!(!Interval::<i32>::and_more(LimitValue::Limitless).is_empty());
    assert!(!open(4, 5).is_empty());
    assert!(!Interval::<i32>::open(LimitValue::Limitless, LimitValue::Limitless)
        .unwrap()
        .is_empty());
}

#[test]
fn single_element_holds_one_value() {
    let s = Interval::single_element(LimitValue::Limit(8)).unwrap();
    assert!(s.is_single_element());
    assert!(s.is_closed());
    assert!(s.contains(&LimitValue::Limit(8)));
    assert!(!s.contains(&LimitValue::Limit(7)));
    assert!(!s.contains(&LimitValue::Limit(9)));
    assert_eq!(s, closed(8, 8));
}

#[test]
fn containment_consistency() {
    let c = closed(1, 10);
    assert!(c.contains(&LimitValue::Limit(1)));
    assert!(c.contains(&LimitValue::Limit(10)));
    assert!(c.contains(&LimitValue::Limit(5)));
    assert!(!c.contains(&LimitValue::Limit(0)));
    assert!(!c.contains(&LimitValue::Limit(11)));
    let o = open(1, 10);
    assert!(!o.contains(&LimitValue::Limit(1)));
    assert!(!o.contains(&LimitValue::Limit(10)));
    assert!(o.contains(&LimitValue::Limit(2)));
    let e = open(3, 3);
    assert!(e.is_empty());
    assert!(!e.contains(&LimitValue::Limit(3)));
    assert!(!e.contains(&LimitValue::Limit(2)));
    assert!(!e.contains(&LimitValue::Limit(4)));
}

#[test]
fn below_and_above() {
    let c = over(1, true, 10, false);
    assert!(c.is_below(&LimitValue::Limit(10)));
    assert!(c.is_below(&LimitValue::Limit(11)));
    assert!(!c.is_below(&LimitValue::Limit(9)));
    assert!(c.is_above(&LimitValue::Limit(0)));
    assert!(!c.is_above(&LimitValue::Limit(1)));
    let up = Interval::and_more(LimitValue::Limit(1));
    assert!(!up.is_below(&LimitValue::Limit(1_000_000)));
    let down = Interval::up_to(LimitValue::Limit(1));
    assert!(!down.is_above(&LimitValue::Limit(-1_000_000)));
    assert!(down.contains(&LimitValue::Limitless));
    assert!(!up.contains(&LimitValue::Limitless));
}

#[test]
fn limit_queries_are_not_swapped() {
    let i = over(1, true, 10, false);
    assert_eq!(i.includes_upper_limit(), false);
    assert_eq!(i.includes_lower_limit(), true);
    assert!(!i.is_open());
    assert!(!i.is_closed());
    assert!(i.has_lower_limit());
    assert!(i.has_upper_limit());
    let j = over(1, false, 10, true);
    assert_eq!(j.includes_upper_limit(), true);
    assert_eq!(j.includes_lower_limit(), false);
}

#[test]
fn rays() {
    let and_more = Interval::and_more(LimitValue::Limit(3));
    assert!(and_more.has_lower_limit() && !and_more.has_upper_limit());
    assert!(and_more.includes_lower_limit());
    assert!(and_more.contains(&LimitValue::Limit(3)));
    let more_than = Interval::more_than(LimitValue::Limit(3));
    assert!(!more_than.includes_lower_limit());
    assert!(!more_than.contains(&LimitValue::Limit(3)));
    assert!(more_than.contains(&LimitValue::Limit(4)));
    let under = Interval::under(LimitValue::Limit(3));
    assert!(!under.has_lower_limit() && under.has_upper_limit());
    assert!(!under.contains(&LimitValue::Limit(3)));
    assert!(under.contains(&LimitValue::Limit(2)));
    let up_to = Interval::up_to(LimitValue::Limit(3));
    assert!(up_to.contains(&LimitValue::Limit(3)));
    assert!(!up_to.contains(&LimitValue::Limit(4)));
}

#[test]
fn intersection_is_symmetric() {
    let all = vec![
        closed(0, 5),
        closed(5, 10),
        open(0, 5),
        open(5, 10),
        over(0, true, 5, false),
        over(5, false, 10, true),
        open(5, 5),
        closed(5, 5),
        closed(6, 7),
        Interval::and_more(LimitValue::Limit(5)),
        Interval::more_than(LimitValue::Limit(5)),
        Interval::under(LimitValue::Limit(5)),
        Interval::up_to(LimitValue::Limit(5)),
        Interval::open(LimitValue::Limitless, LimitValue::Limitless).unwrap(),
    ];
    for x in all.iter() {
        for y in all.iter() {
            assert_eq!(x.intersects(y), y.intersects(x));
        }
    }
}

#[test]
fn touching_boundaries() {
    assert!(closed(0, 5).intersects(&closed(5, 10)));
    assert!(!open(0, 5).intersects(&open(5, 10)));
    assert!(!open(0, 5).contains(&LimitValue::Limit(5)));
    assert!(!open(5, 10).contains(&LimitValue::Limit(5)));
    assert!(!over(0, true, 5, false).intersects(&closed(5, 10)));
    assert!(!closed(0, 5).intersects(&over(5, false, 10, true)));
}

#[test]
fn apart_and_overlapping() {
    assert!(!closed(0, 4).intersects(&closed(5, 10)));
    assert!(closed(0, 6).intersects(&closed(5, 10)));
    assert!(closed(0, 100).intersects(&closed(5, 10)));
    assert!(!open(5, 5).intersects(&closed(0, 10)));
}

#[test]
fn unbounded_rays() {
    let more_than = Interval::more_than(LimitValue::Limit(0));
    let under = Interval::under(LimitValue::Limit(100));
    assert!(more_than.intersects(&under));
    assert!(under.intersects(&more_than));
    let a = Interval::and_more(LimitValue::Limit(-1_000));
    let b = Interval::and_more(LimitValue::Limit(1_000_000));
    assert!(a.intersects(&b));
    assert!(b.intersects(&a));
    assert!(!Interval::under(LimitValue::Limit(0)).intersects(&more_than));
}

#[test]
fn overlap_of_two_closed_intervals() {
    let a = closed(1, 10);
    let b = closed(5, 15);
    assert_eq!(a.intersects(&b), true);
    assert_eq!(a.greater_of_lower_limits(&b), &LimitValue::Limit(5));
    assert_eq!(a.lesser_of_upper_limits(&b), &LimitValue::Limit(10));
    assert!(a.greater_of_lower_included_in_intersection(&b));
    assert!(a.lesser_of_upper_included_in_intersection(&b));
    assert!(a.greater_of_lower_included_in_union(&b));
    assert!(a.lesser_of_upper_included_in_union(&b));
    let overlap = Interval::over(
        a.greater_of_lower_limits(&b).clone(),
        a.greater_of_lower_included_in_intersection(&b),
        a.lesser_of_upper_limits(&b).clone(),
        a.lesser_of_upper_included_in_intersection(&b),
    )
    .unwrap();
    assert_eq!(overlap, closed(5, 10));
    assert!(overlap.is_closed());
}

#[test]
fn greater_and_lesser_with_unbounded_sides() {
    let ray = Interval::up_to(LimitValue::Limit(7));
    let seg = closed(1, 10);
    assert_eq!(ray.greater_of_lower_limits(&seg), &LimitValue::Limit(1));
    assert_eq!(seg.greater_of_lower_limits(&ray), &LimitValue::Limit(1));
    assert_eq!(ray.lesser_of_upper_limits(&seg), &LimitValue::Limit(7));
    let up = Interval::and_more(LimitValue::Limit(3));
    assert_eq!(up.lesser_of_upper_limits(&seg), &LimitValue::Limit(10));
    assert_eq!(seg.lesser_of_upper_limits(&up), &LimitValue::Limit(10));
    assert!(seg.equal_both_limitless(&LimitValue::Limitless, &LimitValue::Limitless));
    assert!(!seg.equal_both_limitless(&LimitValue::Limit(1), &LimitValue::Limitless));
}

#[test]
fn left_complement() {
    let x = closed(5, 10);
    let other = closed(1, 20);
    let left = x.left_complement_relative_to(&other).unwrap();
    assert_eq!(left, over(1, true, 5, false));
    assert!(left.includes_lower_limit());
    assert!(!left.includes_upper_limit());
    assert!(closed(5, 10).left_complement_relative_to(&closed(5, 20)).is_none());
    assert!(closed(5, 10).left_complement_relative_to(&closed(7, 20)).is_none());
    let point = open(5, 10).left_complement_relative_to(&closed(5, 20)).unwrap();
    assert!(point.is_single_element());
    assert_eq!(point, closed(5, 5));
    let ray = closed(5, 10)
        .left_complement_relative_to(&Interval::up_to(LimitValue::Limit(7)))
        .unwrap();
    assert!(!ray.has_lower_limit());
    assert_eq!(ray.upper_limit(), &LimitValue::Limit(5));
    assert!(!ray.includes_upper_limit());
    assert!(Interval::up_to(LimitValue::Limit(7))
        .left_complement_relative_to(&closed(5, 10))
        .is_none());
}

#[test]
fn right_complement() {
    let x = closed(5, 10);
    let other = closed(1, 20);
    let right = x.right_complement_relative_to(&other).unwrap();
    assert_eq!(right, over(10, false, 20, true));
    assert!(!right.includes_lower_limit());
    assert!(right.includes_upper_limit());
    assert!(closed(5, 20).right_complement_relative_to(&closed(1, 20)).is_none());
    assert!(closed(5, 30).right_complement_relative_to(&closed(1, 20)).is_none());
    let point = open(5, 20).right_complement_relative_to(&closed(1, 20)).unwrap();
    assert_eq!(point, closed(20, 20));
    let ray = closed(5, 10)
        .right_complement_relative_to(&Interval::and_more(LimitValue::Limit(7)))
        .unwrap();
    assert!(!ray.has_upper_limit());
    assert_eq!(ray.lower_limit(), &LimitValue::Limit(10));
    assert!(!ray.includes_lower_limit());
}

#[test]
fn empty_of_same_type() {
    let e = closed(3, 9).empty_of_same_type().unwrap();
    assert!(e.is_empty());
    assert_eq!(e.lower_limit(), &LimitValue::Limit(3));
    assert_eq!(e.upper_limit(), &LimitValue::Limit(3));
    let n = closed(3, 9)
        .new_of_same_type(LimitValue::Limit(1), true, LimitValue::Limit(2), false)
        .unwrap();
    assert_eq!(n, over(1, true, 2, false));
}

#[test]
fn interval_equality_goes_by_endpoints() {
    assert_eq!(closed(1, 2), closed(1, 2));
    assert_ne!(closed(1, 2), open(1, 2));
    assert_ne!(closed(1, 2), closed(1, 3));
    assert_eq!(closed(1, 2).clone(), closed(1, 2));
    let d = Interval::<i32>::default();
    assert!(!d.has_lower_limit() && !d.has_upper_limit());
}

#[test]
fn complement_of_overlapping_intervals() {
    let x = closed(5, 10);
    let other = closed(1, 20);
    let rest = x.complement_relative_to(&other);
    assert_eq!(rest.len(), 2);
    assert_eq!(rest[0], over(1, true, 5, false));
    assert_eq!(rest[1], over(10, false, 20, true));
    let at_left = closed(1, 10).complement_relative_to(&other);
    assert_eq!(at_left.len(), 1);
    assert_eq!(at_left[0], over(10, false, 20, true));
    let at_right = closed(5, 20).complement_relative_to(&other);
    assert_eq!(at_right.len(), 1);
    assert_eq!(at_right[0], over(1, true, 5, false));
    let whole = closed(0, 30).complement_relative_to(&other);
    assert!(whole.is_empty());
    let same = other.complement_relative_to(&other);
    assert!(same.is_empty());
}

#[test]
fn complement_of_intervals_apart() {
    let x = closed(30, 40);
    let other = closed(1, 20);
    let rest = x.complement_relative_to(&other);
    assert_eq!(rest.len(), 1);
    assert_eq!(rest[0], other);
    let touching = over(20, false, 40, true).complement_relative_to(&other);
    assert_eq!(touching.len(), 1);
    assert_eq!(touching[0], other);
}

#[test]
fn complement_contains_what_is_left() {
    let x = over(5, false, 10, true);
    let other = closed(1, 20);
    let rest = x.complement_relative_to(&other);
    for v in -2..25 {
        let value = LimitValue::Limit(v);
        let in_rest = rest.iter().any(|piece| piece.contains(&value));
        assert_eq!(in_rest, other.contains(&value) && !x.contains(&value));
    }
}
