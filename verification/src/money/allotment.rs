//! A share of money that belongs to an entity.

use crate::money::amount::amount_equal;
use crate::money::amount::amount_negation;
use crate::money::money::Money;
use vstd::prelude::*;
use vstd::std_specs::cmp::PartialEqSpec;
use vstd::std_specs::cmp::PartialEqSpecImpl;
use vstd::std_specs::ops::NegSpecImpl;

verus! {

/// An amount of money allotted to an entity.
#[derive(Debug)]
pub struct Allotment<T> {
    pub entity: T,
    pub amount: Money,
}

/// The two allotments are equal: their entities are, by `T`'s equality, and
/// their amounts are the same number in the same currency.
pub open spec fn same_allotment<T: PartialEq>(a: Allotment<T>, b: Allotment<T>) -> bool {
    &&& a.entity.eq_spec(&b.entity)
    &&& amount_equal(a.amount.amount(), b.amount.amount())
    &&& a.amount.same_currency(b.amount)
}

/// The allotment with its amount negated.
pub open spec fn negated_allotment<T>(a: Allotment<T>) -> Allotment<T> {
    Allotment {
        entity: a.entity,
        amount: Money::of(amount_negation(a.amount.amount()), a.amount.currency()),
    }
}

impl<T> Allotment<T> {
    /// The amount allotted to the entity.
    pub fn new(entity: T, amount: Money) -> (r: Self)
        ensures
            r == (Allotment { entity, amount }),
    {
        Self { entity, amount }
    }

    /// The allotment with its amount negated.
    pub fn negated(self) -> (r: Self)
        ensures
            r == negated_allotment(self),
    {
        let Allotment { entity, amount } = self;
        let negated = amount.negated();
        proof {
            negated.lemma_of();
        }
        Self::new(entity, negated)
    }
}

impl<T> core::ops::Neg for Allotment<T> {
    type Output = Allotment<T>;

    fn neg(self) -> (r: Allotment<T>) {
        Allotment::negated(self)
    }
}

impl<T> NegSpecImpl for Allotment<T> {
    open spec fn obeys_neg_spec() -> bool {
        true
    }

    open spec fn neg_req(self) -> bool {
        true
    }

    open spec fn neg_spec(self) -> Self {
        negated_allotment(self)
    }
}

impl<T: Clone> Clone for Allotment<T> {
    fn clone(&self) -> (r: Self)
        ensures
            cloned(self.entity, r.entity),
            r.amount == self.amount,
    {
        let amount = self.amount.clone();
        proof {
            amount.lemma_of();
            self.amount.lemma_of();
        }
        Self { entity: self.entity.clone(), amount }
    }
}

impl<T: PartialEq> PartialEq for Allotment<T> {
    fn eq(&self, other: &Self) -> (r: bool) {
        self.entity.eq(&other.entity) && self.amount.eq(&other.amount)
    }
}

impl<T: PartialEq> PartialEqSpecImpl for Allotment<T> {
    open spec fn obeys_eq_spec() -> bool {
        T::obeys_eq_spec()
    }

    open spec fn eq_spec(&self, other: &Self) -> bool {
        same_allotment(*self, *other)
    }
}

impl<T: Eq> Eq for Allotment<T> {

}

impl<T: core::hash::Hash> core::hash::Hash for Allotment<T> {
    /// Feeds the entity and the amount to the hasher, through std's
    /// `Hash::hash` for `T` and for `Money`. Nothing is claimed of the
    /// hasher's state.
    #[verifier::external_body]
    fn hash<H: core::hash::Hasher>(&self, state: &mut H) {
        core::hash::Hash::hash(&self.entity, state);
        core::hash::Hash::hash(&self.amount, state)
    }
}

} // verus!
