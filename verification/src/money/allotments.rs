//! A set of allotments.

use crate::money::allotment::negated_allotment;
use crate::money::allotment::same_allotment;
use crate::money::allotment::Allotment;
use vstd::prelude::*;
use vstd::std_specs::cmp::PartialEqSpec;

verus! {

/// The sequence holds an allotment equal to `x`.
pub open spec fn holds<T: PartialEq>(s: Seq<Allotment<T>>, x: Allotment<T>) -> bool {
    exists|i: int| 0 <= i < s.len() && same_allotment(#[trigger] s[i], x)
}

/// No allotment of the sequence is equal to an earlier one.
pub open spec fn no_duplicates<T: PartialEq>(s: Seq<Allotment<T>>) -> bool {
    forall|i: int, j: int| 0 <= i < j < s.len() ==> !same_allotment(#[trigger] s[i], #[trigger] s[j])
}

/// The sequence with `x` put in: unchanged where it holds an allotment equal
/// to `x`, and with `x` at its end otherwise.
pub open spec fn inserted<T: PartialEq>(s: Seq<Allotment<T>>, x: Allotment<T>) -> Seq<
    Allotment<T>,
> {
    if holds(s, x) {
        s
    } else {
        s.push(x)
    }
}

/// The sequence with the allotments of `xs` put in, one after the other.
pub open spec fn inserted_all<T: PartialEq>(s: Seq<Allotment<T>>, xs: Seq<Allotment<T>>) -> Seq<
    Allotment<T>,
>
    decreases xs.len(),
{
    if xs.len() == 0 {
        s
    } else {
        inserted_all(inserted(s, xs[0]), xs.drop_first())
    }
}

/// Putting in the allotments from `i` on is putting in the one at `i` and
/// then those after it.
pub proof fn lemma_inserted_all_step<T: PartialEq>(
    s: Seq<Allotment<T>>,
    xs: Seq<Allotment<T>>,
    i: int,
)
    requires
        0 <= i < xs.len(),
    ensures
        inserted_all(s, xs.subrange(i, xs.len() as int)) == inserted_all(
            inserted(s, xs[i]),
            xs.subrange(i + 1, xs.len() as int),
        ),
{
    let rest = xs.subrange(i, xs.len() as int);
    assert(rest[0] == xs[i]);
    assert(rest.drop_first() =~= xs.subrange(i + 1, xs.len() as int));
}

/// The allotments of `s` whose flag in `kept` is set, in their order.
pub open spec fn filtered<T>(s: Seq<Allotment<T>>, kept: Seq<bool>) -> Seq<Allotment<T>>
    recommends
        kept.len() == s.len(),
    decreases s.len(),
{
    if s.len() == 0 || kept.len() != s.len() {
        Seq::empty()
    } else if kept.last() {
        filtered(s.drop_last(), kept.drop_last()).push(s.last())
    } else {
        filtered(s.drop_last(), kept.drop_last())
    }
}

/// The allotment at `i` belongs to an entity equal to `e`.
pub open spec fn entity_at<T: PartialEq>(s: Seq<Allotment<T>>, e: T, i: int) -> bool {
    0 <= i < s.len() && s[i].entity.eq_spec(&e)
}

/// The allotment at `i` is the first that belongs to an entity equal to
/// `e`.
pub open spec fn first_entity_at<T: PartialEq>(s: Seq<Allotment<T>>, e: T, i: int) -> bool {
    &&& entity_at(s, e, i)
    &&& forall|j: int| 0 <= j < i ==> !(#[trigger] s[j]).entity.eq_spec(&e)
}

/// Some allotment belongs to an entity equal to `e`.
pub open spec fn has_entity<T: PartialEq>(s: Seq<Allotment<T>>, e: T) -> bool {
    exists|i: int| 0 <= i < s.len() && (#[trigger] s[i]).entity.eq_spec(&e)
}

/// `b` may be what cloning the allotment `a` gives: a cloned entity with
/// the same amount.
pub open spec fn allotment_cloned<T: Clone>(a: Allotment<T>, b: Allotment<T>) -> bool {
    cloned(a.entity, b.entity) && b.amount == a.amount
}

/// A set of allotments: no two of them are equal.
///
/// The allotments are kept in the order in which they were put in.
#[derive(Debug)]
pub struct Allotments<T: PartialEq> {
    values: Vec<Allotment<T>>,
}

impl<T: PartialEq> View for Allotments<T> {
    type V = Seq<Allotment<T>>;

    closed spec fn view(&self) -> Seq<Allotment<T>> {
        self.values@
    }
}

impl<T: PartialEq> Allotments<T> {
    #[verifier::type_invariant]
    spec fn is_a_set(self) -> bool {
        T::obeys_eq_spec() ==> no_duplicates(self.values@)
    }

    /// No allotments.
    pub fn empty() -> (r: Self)
        ensures
            r@ == Seq::<Allotment<T>>::empty(),
    {
        Allotments { values: Vec::new() }
    }

    /// There are no allotments.
    pub fn is_empty(&self) -> (r: bool)
        ensures
            r == (self@.len() == 0),
    {
        self.values.len() == 0
    }

    /// The number of allotments.
    pub fn len(&self) -> (r: usize)
        ensures
            r == self@.len(),
            T::obeys_eq_spec() ==> no_duplicates(self@),
    {
        proof {
            use_type_invariant(self);
        }
        self.values.len()
    }

    /// The allotment at the given place.
    pub fn get(&self, i: usize) -> (r: &Allotment<T>)
        requires
            i < self@.len(),
        ensures
            *r == self@[i as int],
    {
        &self.values[i]
    }

    /// The set holds an allotment equal to `x`.
    pub fn contains(&self, x: &Allotment<T>) -> (r: bool)
        ensures
            T::obeys_eq_spec() ==> r == holds(self@, *x),
    {
        let mut i: usize = 0;
        while i < self.values.len()
            invariant
                i <= self.values.len(),
                T::obeys_eq_spec() ==> forall|j: int|
                    0 <= j < i ==> !same_allotment(#[trigger] self.values@[j], *x),
            decreases self.values.len() - i,
        {
            if self.values[i].eq(x) {
                return true;
            }
            i += 1;
        }
        false
    }

    /// The set with the allotment put in: unchanged where it holds one
    /// equal to it.
    pub fn with(self, x: Allotment<T>) -> (r: Self)
        ensures
            T::obeys_eq_spec() ==> r@ == inserted(self@, x),
    {
        proof {
            use_type_invariant(&self);
        }
        if self.contains(&x) {
            self
        } else {
            let mut values = self.values;
            values.push(x);
            Allotments { values }
        }
    }

    /// The set of the given allotments, each put in after those before it.
    pub fn new(values: Vec<Allotment<T>>) -> (r: Self)
        ensures
            T::obeys_eq_spec() ==> r@ == inserted_all(Seq::<Allotment<T>>::empty(), values@),
    {
        Self::empty().combine_vec(values)
    }

    /// The set with the given allotments put in, one after the other.
    pub fn combine_vec(self, others: Vec<Allotment<T>>) -> (r: Self)
        ensures
            T::obeys_eq_spec() ==> r@ == inserted_all(self@, others@),
    {
        let mut set = self;
        let ghost start = set@;
        let ghost all = others@;
        assert(all.subrange(0, all.len() as int) =~= all);
        for x in it: others
            invariant
                it.seq() == all,
                T::obeys_eq_spec() ==> inserted_all(
                    set@,
                    all.subrange(it.index() as int, all.len() as int),
                ) == inserted_all(start, all),
        {
            proof {
                lemma_inserted_all_step(set@, all, it.index() as int);
            }
            set = set.with(x);
        }
        set
    }

    /// The union of the two sets: this one with the allotments of `other`
    /// put in.
    pub fn combine(self, other: Self) -> (r: Self)
        ensures
            T::obeys_eq_spec() ==> r@ == inserted_all(self@, other@),
    {
        self.combine_vec(other.values)
    }

    /// The place of the first allotment of an entity equal to `e`, or `None`
    /// where there is none.
    pub fn position(&self, e: &T) -> (r: Option<usize>)
        ensures
            r matches Some(i) ==> i < self@.len(),
            T::obeys_eq_spec() ==> match r {
                Some(i) => first_entity_at(self@, *e, i as int),
                None => !has_entity(self@, *e),
            },
    {
        let mut i: usize = 0;
        while i < self.values.len()
            invariant
                i <= self.values.len(),
                T::obeys_eq_spec() ==> forall|j: int|
                    0 <= j < i ==> !(#[trigger] self.values@[j]).entity.eq_spec(e),
            decreases self.values.len() - i,
        {
            if self.values[i].entity.eq(e) {
                return Some(i);
            }
            i += 1;
        }
        None
    }

    /// The set of the allotments for which `f` holds.
    ///
    /// `kept` in the contract is what `f` answered for each allotment.
    pub fn filter<F: Fn(&Allotment<T>) -> bool>(self, f: F) -> (r: Self)
        requires
            forall|x: Allotment<T>| call_requires(f, (&x,)),
        ensures
            T::obeys_eq_spec() ==> exists|kept: Seq<bool>|
                {
                    &&& kept.len() == self@.len()
                    &&& forall|i: int|
                        0 <= i < kept.len() ==> call_ensures(f, (&self@[i],), #[trigger] kept[i])
                    &&& #[trigger] inserted_all(
                        Seq::<Allotment<T>>::empty(),
                        filtered(self@, kept),
                    ) == r@
                },
    {
        let ghost all = self@;
        let ghost mut kept: Seq<bool> = Seq::empty();
        let mut found: Vec<Allotment<T>> = Vec::new();
        for x in it: self.values
            invariant
                it.seq() == all,
                forall|x: Allotment<T>| call_requires(f, (&x,)),
                kept.len() == it.index(),
                forall|i: int| 0 <= i < kept.len() ==> call_ensures(f, (&all[i],), #[trigger] kept[i]),
                found@ == filtered(all.subrange(0, it.index() as int), kept),
        {
            let keep = f(&x);
            proof {
                let before = all.subrange(0, it.index() as int);
                let now = all.subrange(0, it.index() + 1);
                assert(now.drop_last() =~= before);
                assert(kept.push(keep).drop_last() =~= kept);
                kept = kept.push(keep);
            }
            if keep {
                found.push(x);
            }
        }
        assert(all.subrange(0, all.len() as int) =~= all);
        let r = Self::new(found);
        assert(inserted_all(Seq::<Allotment<T>>::empty(), filtered(all, kept)) == r@ || !T::obeys_eq_spec());
        r
    }

    /// The first allotment for which `f` holds.
    pub fn find<F: Fn(&Allotment<T>) -> bool>(self, f: F) -> (r: Option<Allotment<T>>)
        requires
            forall|x: Allotment<T>| call_requires(f, (&x,)),
        ensures
            match r {
                Some(x) => exists|i: int|
                    {
                        &&& 0 <= i < self@.len()
                        &&& #[trigger] self@[i] == x
                        &&& call_ensures(f, (&self@[i],), true)
                        &&& forall|j: int| 0 <= j < i ==> call_ensures(f, (&#[trigger] self@[j],), false)
                    },
                None => forall|j: int|
                    0 <= j < self@.len() ==> call_ensures(f, (&#[trigger] self@[j],), false),
            },
    {
        let ghost all = self@;
        for x in it: self.values
            invariant
                it.seq() == all,
                all == self@,
                forall|x: Allotment<T>| call_requires(f, (&x,)),
                forall|j: int| 0 <= j < it.index() ==> call_ensures(f, (&#[trigger] all[j],), false),
        {
            if f(&x) {
                proof {
                    let i = it.index() as int;
                    assert(all[i] == x);
                    assert(call_ensures(f, (&all[i],), true));
                    assert(0 <= i < all.len());
                }
                return Some(x);
            }
        }
        None
    }

    /// The allotments, in the order in which they were put in.
    pub fn into_vec(self) -> (r: Vec<Allotment<T>>)
        ensures
            r@ == self@,
            T::obeys_eq_spec() ==> no_duplicates(r@),
    {
        proof {
            use_type_invariant(&self);
        }
        self.values
    }

    /// The set of the negated allotments.
    pub fn negated(self) -> (r: Self)
        ensures
            T::obeys_eq_spec() ==> r@ == inserted_all(
                Seq::<Allotment<T>>::empty(),
                self@.map_values(|a: Allotment<T>| negated_allotment(a)),
            ),
    {
        let ghost all = self@;
        let mut turned: Vec<Allotment<T>> = Vec::new();
        for x in it: self.values
            invariant
                it.seq() == all,
                turned@ == all.subrange(0, it.index() as int).map_values(
                    |a: Allotment<T>| negated_allotment(a),
                ),
        {
            turned.push(x.negated());
            assert(turned@ =~= all.subrange(0, it.index() + 1).map_values(
                |a: Allotment<T>| negated_allotment(a),
            ));
        }
        assert(all.subrange(0, all.len() as int) =~= all);
        Self::new(turned)
    }
}

impl<T: PartialEq + Clone> Clone for Allotments<T> {
    /// The set of the cloned allotments, each put in after those before it.
    fn clone(&self) -> (r: Self)
        ensures
            T::obeys_eq_spec() ==> exists|copies: Seq<Allotment<T>>|
                {
                    &&& copies.len() == self@.len()
                    &&& forall|i: int|
                        0 <= i < copies.len() ==> allotment_cloned(self@[i], #[trigger] copies[i])
                    &&& #[trigger] inserted_all(Seq::<Allotment<T>>::empty(), copies) == r@
                },
    {
        let mut copies: Vec<Allotment<T>> = Vec::new();
        let mut i: usize = 0;
        while i < self.values.len()
            invariant
                i <= self.values.len(),
                copies@.len() == i,
                forall|j: int| 0 <= j < i ==> allotment_cloned(self.values@[j], #[trigger] copies@[j]),
            decreases self.values.len() - i,
        {
            copies.push(self.values[i].clone());
            i += 1;
        }
        let r = Self::new(copies);
        assert(inserted_all(Seq::<Allotment<T>>::empty(), copies@) == r@ || !T::obeys_eq_spec());
        r
    }
}

} // verus!
