//! Money fanned out over entities.

use crate::money::allotment::Allotment;
use crate::money::allotments::entity_at;
use crate::money::allotments::first_entity_at;
use crate::money::allotments::has_entity;
use crate::money::allotments::inserted;
use crate::money::allotments::Allotments;
use crate::money::amount::amount_is_zero;
use crate::money::amount::amount_sum;
use crate::money::money::Money;
use crate::money::money::MoneyError;
use vstd::prelude::*;
use vstd::std_specs::cmp::PartialEqSpec;

verus! {

/// An allotment before the one at `i` belongs to an entity equal to its
/// entity.
pub open spec fn earlier_entity<T: PartialEq>(s: Seq<Allotment<T>>, i: int) -> bool {
    exists|j: int| 0 <= j < i && (#[trigger] s[j]).entity.eq_spec(&s[i].entity)
}

/// The place of the first allotment of an entity equal to `e`.
pub open spec fn first_place<T: PartialEq>(s: Seq<Allotment<T>>, e: T) -> int {
    choose|j: int| first_entity_at(s, e, j)
}

/// The allotment as it enters a sum: left out where its amount is zero.
pub open spec fn kept<T>(x: Allotment<T>) -> Option<Result<Allotment<T>, MoneyError>> {
    if amount_is_zero(x.amount.amount()) {
        None
    } else {
        Some(Ok(x))
    }
}

/// What the allotment at place `k` of `mine` followed by `theirs`
/// contributes to the sum of the two fans.
///
/// An allotment of `mine` whose entity has none before it contributes
/// itself where `theirs` has none of that entity, and otherwise its entity
/// with the sum of its amount and the amount of the first such allotment of
/// `theirs`; that sum fails where the currencies differ. An allotment of
/// `theirs` contributes itself where its entity has no allotment in `mine`
/// and none before it in `theirs`. Whatever comes to zero contributes
/// nothing.
pub open spec fn contribution<T: PartialEq>(
    mine: Seq<Allotment<T>>,
    theirs: Seq<Allotment<T>>,
    k: int,
) -> Option<Result<Allotment<T>, MoneyError>> {
    if k < mine.len() {
        let a = mine[k];
        if earlier_entity(mine, k) {
            None
        } else if has_entity(theirs, a.entity) {
            let b = theirs[first_place(theirs, a.entity)];
            if a.amount.same_currency(b.amount) {
                kept(
                    Allotment {
                        entity: a.entity,
                        amount: Money::of(
                            amount_sum(a.amount.amount(), b.amount.amount()),
                            a.amount.currency(),
                        ),
                    },
                )
            } else {
                Some(Err(MoneyError::NotSameCurrencyError))
            }
        } else {
            kept(a)
        }
    } else {
        let b = theirs[k - mine.len()];
        if has_entity(mine, b.entity) || earlier_entity(theirs, k - mine.len()) {
            None
        } else {
            kept(b)
        }
    }
}

/// The sum of the two fans over the first `n` places of `mine` followed by
/// `theirs`: the contributions put into a set one after the other, or the
/// first failure among them.
pub open spec fn summed<T: PartialEq>(
    mine: Seq<Allotment<T>>,
    theirs: Seq<Allotment<T>>,
    n: nat,
) -> Result<Seq<Allotment<T>>, MoneyError>
    decreases n,
{
    if n == 0 {
        Ok(Seq::empty())
    } else {
        match summed(mine, theirs, (n - 1) as nat) {
            Err(e) => Err(e),
            Ok(sum) => match contribution(mine, theirs, n - 1) {
                None => Ok(sum),
                Some(Err(e)) => Err(e),
                Some(Ok(x)) => Ok(inserted(sum, x)),
            },
        }
    }
}

/// `r` is the fan of the given allotments, or the given failure.
pub open spec fn is_fan<T: PartialEq>(
    r: Result<MoneyFan<T>, MoneyError>,
    sum: Result<Seq<Allotment<T>>, MoneyError>,
) -> bool {
    match sum {
        Ok(s) => r is Ok && r->Ok_0.0@ == s,
        Err(e) => r is Err && r->Err_0 == e,
    }
}

/// A set of allotments of money to entities.
#[derive(Debug)]
pub struct MoneyFan<T: PartialEq>(pub Allotments<T>);

impl<T: PartialEq> MoneyFan<T> {
    /// The fan without allotments.
    pub fn empty() -> (r: Self)
        ensures
            r.0@ == Seq::<Allotment<T>>::empty(),
    {
        Self(Allotments::empty())
    }

    /// The fan has no allotments.
    pub fn is_empty(&self) -> (r: bool)
        ensures
            r == (self.0@.len() == 0),
    {
        self.0.is_empty()
    }

    /// The fan of the given allotments.
    pub fn new(values: Allotments<T>) -> (r: Self)
        ensures
            r.0 == values,
    {
        Self(values)
    }

    /// The allotments, in the order in which they were put in.
    pub fn into_vec(self) -> (r: Vec<Allotment<T>>)
        ensures
            r@ == self.0@,
    {
        self.0.into_vec()
    }

    /// The first allotment of an entity equal to `an_entity`, or `None`
    /// where there is none.
    pub fn allotment(self, an_entity: T) -> (r: Option<Allotment<T>>)
        ensures
            T::obeys_eq_spec() ==> match r {
                Some(x) => first_entity_at(self.0@, an_entity, first_place(self.0@, an_entity))
                    && x == self.0@[first_place(self.0@, an_entity)],
                None => !has_entity(self.0@, an_entity),
            },
    {
        let ghost all = self.0@;
        let values = self.0.into_vec();
        for x in it: values
            invariant
                it.seq() == all,
                all == self.0@,
                T::obeys_eq_spec() ==> forall|j: int|
                    0 <= j < it.index() ==> !(#[trigger] all[j]).entity.eq_spec(&an_entity),
        {
            if x.entity.eq(&an_entity) {
                proof {
                    if T::obeys_eq_spec() {
                        assert(first_entity_at(all, an_entity, it.index() as int));
                        lemma_first_place(all, an_entity, it.index() as int);
                    }
                }
                return Some(x);
            }
        }
        None
    }

    /// For each allotment, whether none before it belongs to an entity
    /// equal to its entity.
    fn first_flags(set: &Allotments<T>) -> (r: Vec<bool>)
        ensures
            r@.len() == set@.len(),
            T::obeys_eq_spec() ==> forall|i: int|
                0 <= i < r@.len() ==> #[trigger] r@[i] == !earlier_entity(set@, i),
    {
        let mut flags: Vec<bool> = Vec::new();
        let mut i: usize = 0;
        while i < set.len()
            invariant
                i <= set@.len(),
                flags@.len() == i,
                T::obeys_eq_spec() ==> forall|k: int|
                    0 <= k < i ==> #[trigger] flags@[k] == !earlier_entity(set@, k),
            decreases set@.len() - i,
        {
            let found = set.position(&set.get(i).entity);
            let first = match found {
                Some(j) => j >= i,
                None => true,
            };
            proof {
                if T::obeys_eq_spec() {
                    let e = set@[i as int].entity;
                    if first {
                        assert(!earlier_entity(set@, i as int));
                    } else {
                        let j = found->Some_0 as int;
                        assert(set@[j].entity.eq_spec(&e));
                        assert(earlier_entity(set@, i as int));
                    }
                }
            }
            flags.push(first);
            i += 1;
        }
        flags
    }

    /// For each allotment of `mine`, the place of the first allotment of
    /// `theirs` that belongs to an entity equal to its entity.
    fn partner_places(mine: &Allotments<T>, theirs: &Allotments<T>) -> (r: Vec<Option<usize>>)
        ensures
            r@.len() == mine@.len(),
            forall|i: int|
                0 <= i < r@.len() ==> (#[trigger] r@[i] matches Some(j) ==> j < theirs@.len()),
            T::obeys_eq_spec() ==> forall|i: int|
                0 <= i < r@.len() ==> match #[trigger] r@[i] {
                    Some(j) => first_entity_at(theirs@, mine@[i].entity, j as int),
                    None => !has_entity(theirs@, mine@[i].entity),
                },
    {
        let mut places: Vec<Option<usize>> = Vec::new();
        let mut i: usize = 0;
        while i < mine.len()
            invariant
                i <= mine@.len(),
                places@.len() == i,
                forall|k: int|
                    0 <= k < i ==> (#[trigger] places@[k] matches Some(j) ==> j < theirs@.len()),
                T::obeys_eq_spec() ==> forall|k: int|
                    0 <= k < i ==> match #[trigger] places@[k] {
                        Some(j) => first_entity_at(theirs@, mine@[k].entity, j as int),
                        None => !has_entity(theirs@, mine@[k].entity),
                    },
            decreases mine@.len() - i,
        {
            places.push(theirs.position(&mine.get(i).entity));
            i += 1;
        }
        places
    }

    /// The sum of the two fans: for each entity the sum of its allotments
    /// in the two, left out where it comes to zero. Fails with
    /// `NotSameCurrencyError` where two amounts to be added are in different
    /// currencies.
    ///
    /// Of several allotments of one entity in a fan, the first counts.
    pub fn add(self, added: MoneyFan<T>) -> (r: Result<Self, MoneyError>)
        ensures
            T::obeys_eq_spec() ==> is_fan(
                r,
                summed(self.0@, added.0@, self.0@.len() + added.0@.len()),
            ),
    {
        let ghost mine = self.0@;
        let ghost theirs = added.0@;
        let first_of_mine = Self::first_flags(&self.0);
        let first_of_theirs = Self::first_flags(&added.0);
        let partners = Self::partner_places(&self.0, &added.0);
        let in_mine = Self::partner_places(&added.0, &self.0);
        let their_set = added.0;
        let my_values = self.0.into_vec();
        let n = first_of_mine.len();
        let m = first_of_theirs.len();
        let mut sum: Allotments<T> = Allotments::empty();
        let mut i: usize = 0;
        for a in it: my_values
            invariant
                it.seq() == mine,
                mine == self.0@,
                theirs == added.0@,
                their_set@ == theirs,
                i == it.index(),
                n == mine.len(),
                first_of_mine@.len() == mine.len(),
                partners@.len() == mine.len(),
                forall|k: int|
                    0 <= k < mine.len() ==> (#[trigger] partners@[k] matches Some(j) ==> j
                        < theirs.len()),
                T::obeys_eq_spec() ==> forall|k: int|
                    0 <= k < mine.len() ==> #[trigger] first_of_mine@[k] == !earlier_entity(mine, k),
                T::obeys_eq_spec() ==> forall|k: int|
                    0 <= k < mine.len() ==> match #[trigger] partners@[k] {
                        Some(j) => first_entity_at(theirs, mine[k].entity, j as int),
                        None => !has_entity(theirs, mine[k].entity),
                    },
                T::obeys_eq_spec() ==> summed(mine, theirs, i as nat) == Ok::<
                    Seq<Allotment<T>>,
                    MoneyError,
                >(sum@),
        {
            proof {
                if T::obeys_eq_spec() {
                    match partners@[i as int] {
                        Some(j) => {
                            lemma_first_place(theirs, mine[i as int].entity, j as int);
                        },
                        None => {},
                    }
                }
            }
            if first_of_mine[i] {
                match partners[i] {
                    None => {
                        if !a.amount.is_zero() {
                            sum = sum.with(a);
                        }
                    },
                    Some(j) => {
                        let Allotment { entity, amount } = a;
                        let other = their_set.get(j).amount.clone();
                        proof {
                            other.lemma_of();
                            their_set@[j as int].amount.lemma_of();
                        }
                        match amount.add(other) {
                            Ok(total) => {
                                proof {
                                    total.lemma_of();
                                }
                                if !total.is_zero() {
                                    sum = sum.with(Allotment::new(entity, total));
                                }
                            },
                            Err(e) => {
                                proof {
                                    if T::obeys_eq_spec() {
                                        assert(contribution(mine, theirs, i as int) == Some(
                                            Err::<Allotment<T>, MoneyError>(
                                                MoneyError::NotSameCurrencyError,
                                            ),
                                        ));
                                        assert(summed(mine, theirs, (i + 1) as nat) is Err);
                                        lemma_summed_fails(
                                            mine,
                                            theirs,
                                            (i + 1) as nat,
                                            (mine.len() + theirs.len()) as nat,
                                        );
                                    }
                                }
                                return Err(e);
                            },
                        }
                    },
                }
            }
            i += 1;
        }
        let their_values = their_set.into_vec();
        let mut j: usize = 0;
        for b in it: their_values
            invariant
                it.seq() == theirs,
                mine == self.0@,
                theirs == added.0@,
                j == it.index(),
                n == mine.len(),
                m == theirs.len(),
                first_of_theirs@.len() == theirs.len(),
                in_mine@.len() == theirs.len(),
                T::obeys_eq_spec() ==> forall|k: int|
                    0 <= k < theirs.len() ==> #[trigger] first_of_theirs@[k] == !earlier_entity(
                        theirs,
                        k,
                    ),
                T::obeys_eq_spec() ==> forall|k: int|
                    0 <= k < theirs.len() ==> match #[trigger] in_mine@[k] {
                        Some(p) => first_entity_at(mine, theirs[k].entity, p as int),
                        None => !has_entity(mine, theirs[k].entity),
                    },
                T::obeys_eq_spec() ==> summed(mine, theirs, (mine.len() + j) as nat) == Ok::<
                    Seq<Allotment<T>>,
                    MoneyError,
                >(sum@),
        {
            proof {
                if T::obeys_eq_spec() {
                    match in_mine@[j as int] {
                        Some(p) => {
                            lemma_first_place(mine, theirs[j as int].entity, p as int);
                        },
                        None => {},
                    }
                }
            }
            let outside = match in_mine[j] {
                Some(_) => false,
                None => true,
            };
            if outside && first_of_theirs[j] && !b.amount.is_zero() {
                sum = sum.with(b);
            }
            j += 1;
        }
        Ok(MoneyFan(sum))
    }

    /// The difference of the two fans: the sum of this fan and the negated
    /// other.
    pub fn subtract(self, subtracted: MoneyFan<T>) -> (r: Result<Self, MoneyError>)
        ensures
            T::obeys_eq_spec() ==> exists|negated: Seq<Allotment<T>>|
                {
                    &&& negated == crate::money::allotments::inserted_all(
                        Seq::<Allotment<T>>::empty(),
                        subtracted.0@.map_values(
                            |a: Allotment<T>| crate::money::allotment::negated_allotment(a),
                        ),
                    )
                    &&& #[trigger] is_fan(
                        r,
                        summed(self.0@, negated, self.0@.len() + negated.len()),
                    )
                },
    {
        let negated = subtracted.negated();
        let ghost n = negated.0@;
        let r = self.add(negated);
        assert(is_fan(r, summed(self.0@, n, self.0@.len() + n.len())) || !T::obeys_eq_spec());
        r
    }

    /// The fan of the negated allotments.
    pub fn negated(self) -> (r: Self)
        ensures
            T::obeys_eq_spec() ==> r.0@ == crate::money::allotments::inserted_all(
                Seq::<Allotment<T>>::empty(),
                self.0@.map_values(|a: Allotment<T>| crate::money::allotment::negated_allotment(a)),
            ),
    {
        MoneyFan::new(self.0.negated())
    }
}

impl<T: PartialEq + Clone> Clone for MoneyFan<T> {
    /// The fan of the cloned allotments, each put in after those before it.
    fn clone(&self) -> (r: Self)
        ensures
            T::obeys_eq_spec() ==> exists|copies: Seq<Allotment<T>>|
                {
                    &&& copies.len() == self.0@.len()
                    &&& forall|i: int|
                        0 <= i < copies.len() ==> crate::money::allotments::allotment_cloned(
                            self.0@[i],
                            #[trigger] copies[i],
                        )
                    &&& #[trigger] crate::money::allotments::inserted_all(
                        Seq::<Allotment<T>>::empty(),
                        copies,
                    ) == r.0@
                },
    {
        MoneyFan(self.0.clone())
    }
}

/// A sum that has failed over the first places has failed over all.
pub proof fn lemma_summed_fails<T: PartialEq>(
    mine: Seq<Allotment<T>>,
    theirs: Seq<Allotment<T>>,
    n: nat,
    m: nat,
)
    requires
        n <= m,
        summed(mine, theirs, n) is Err,
    ensures
        summed(mine, theirs, m) == summed(mine, theirs, n),
    decreases m - n,
{
    if n < m {
        lemma_summed_fails(mine, theirs, n, (m - 1) as nat);
    }
}

/// The first allotment of an entity stands at one place only.
pub proof fn lemma_first_place<T: PartialEq>(s: Seq<Allotment<T>>, e: T, i: int)
    requires
        first_entity_at(s, e, i),
    ensures
        first_place(s, e) == i,
        has_entity(s, e),
{
    let j = first_place(s, e);
    assert(first_entity_at(s, e, j));
    assert(entity_at(s, e, i));
    if j < i {
        assert(!s[j].entity.eq_spec(&e));
    }
    if i < j {
        assert(!s[i].entity.eq_spec(&e));
    }
}

} // verus!
