//! An amount in a currency.

use crate::money::amount::abs_of;
use crate::money::amount::amount_abs;
use crate::money::amount::amount_equal;
use crate::money::amount::amount_from_digits;
use crate::money::amount::amount_from_i64;
use crate::money::amount::amount_from_u64;
use crate::money::amount::amount_is_negative;
use crate::money::amount::amount_is_positive;
use crate::money::amount::amount_is_zero;
use crate::money::amount::amount_negation;
use crate::money::amount::amount_of_digits;
use crate::money::amount::amount_of_i64;
use crate::money::amount::amount_of_u64;
use crate::money::amount::amount_order;
use crate::money::amount::amount_parsed;
use crate::money::amount::amount_product;
use crate::money::amount::amount_quotient;
use crate::money::amount::amount_rescaled;
use crate::money::amount::amount_scale;
use crate::money::amount::amount_sum;
use crate::money::amount::clone_of;
use crate::money::amount::currency_digits;
use crate::money::amount::currency_number;
use crate::money::amount::digits_of;
use crate::money::amount::equal_of;
use crate::money::amount::is_negative_of;
use crate::money::amount::is_positive_of;
use crate::money::amount::is_zero_of;
use crate::money::amount::negation_of;
use crate::money::amount::same_currency_of;
use crate::money::amount::order_of;
use crate::money::amount::parse_amount;
use crate::money::amount::product_of;
use crate::money::amount::quotient_of;
use crate::money::amount::rescaled_of;
use crate::money::amount::scale_in_range;
use crate::money::amount::scale_of;
use crate::money::amount::sum_of;
use crate::money::amount::zero_amount;
use crate::money::amount::SCALE_LIMIT;
use bigdecimal::BigDecimal;
use iso_4217::CurrencyCode;
use std::cmp::Ordering;
use vstd::prelude::*;
use vstd::std_specs::cmp::PartialEqSpecImpl;
use vstd::std_specs::cmp::PartialOrdSpecImpl;
use vstd::std_specs::convert::FromSpecImpl;
use vstd::std_specs::ops::AddSpecImpl;
use vstd::std_specs::ops::DivSpecImpl;
use vstd::std_specs::ops::MulSpecImpl;
use vstd::std_specs::ops::NegSpecImpl;
use vstd::std_specs::ops::SubSpecImpl;

verus! {

/// Why an amount of money could not be made or combined.
#[derive(Debug, Clone, Copy, PartialEq, Eq, Structural)]
pub enum MoneyError {
    /// The two amounts are in different currencies.
    NotSameCurrencyError,
}

/// An amount of money in a currency.
///
/// The scale of the amount lies within [`SCALE_LIMIT`] of zero.
#[derive(Debug)]
pub struct Money {
    amount: BigDecimal,
    currency: CurrencyCode,
}

/// The scale at which amounts of the currency are held: its number of
/// digits, and 0 where it has none.
pub open spec fn currency_scale(currency: CurrencyCode) -> int {
    match currency_digits(currency) {
        Some(d) => d,
        None => 0,
    }
}

impl Money {
    /// The amount.
    pub closed spec fn amount(self) -> BigDecimal {
        self.amount
    }

    /// The currency.
    pub closed spec fn currency(self) -> CurrencyCode {
        self.currency
    }

    #[verifier::type_invariant]
    spec fn amount_in_range(self) -> bool {
        scale_in_range(self.amount)
    }

    /// The money with the given amount in the given currency.
    pub closed spec fn of(amount: BigDecimal, currency: CurrencyCode) -> Money {
        Money { amount, currency }
    }

    /// Money is determined by its amount and its currency.
    pub proof fn lemma_of(self)
        ensures
            self == Self::of(self.amount(), self.currency()),
    {
    }

    /// Amount and currency of the money made of them.
    pub proof fn lemma_parts(amount: BigDecimal, currency: CurrencyCode)
        ensures
            Self::of(amount, currency).amount() == amount,
            Self::of(amount, currency).currency() == currency,
    {
    }

    /// The two amounts are in the same currency.
    pub open spec fn same_currency(self, other: Self) -> bool {
        currency_number(self.currency()) == currency_number(other.currency())
    }

    /// The scale at which amounts of the currency are held.
    pub fn scale_for(currency: &CurrencyCode) -> (r: i64)
        ensures
            r == currency_scale(*currency),
            0 <= r <= 4,
    {
        match digits_of(currency) {
            Some(d) => d as i64,
            None => 0,
        }
    }

    /// The amount in the currency, brought to the currency's scale; `None`
    /// where the scale of the amount lies beyond [`SCALE_LIMIT`].
    pub fn new(amount: BigDecimal, currency: CurrencyCode) -> (r: Option<Self>)
        ensures
            r is Some == scale_in_range(amount),
            r matches Some(m) ==> m.amount() == amount_rescaled(amount, currency_scale(currency))
                && m.currency() == currency,
    {
        let scale = scale_of(&amount);
        if scale < -SCALE_LIMIT || scale > SCALE_LIMIT {
            None
        } else {
            let a = rescaled_of(&amount, Self::scale_for(&currency));
            Some(Self { amount: a, currency })
        }
    }

    /// No money in the currency.
    pub fn zero(currency: CurrencyCode) -> (r: Self)
        ensures
            r.currency() == currency,
            exists|zero: BigDecimal| #[trigger]
                amount_is_zero(zero) && amount_scale(zero) == 0 && r.amount() == amount_rescaled(
                    zero,
                    currency_scale(currency),
                ),
    {
        let zero = zero_amount();
        let a = rescaled_of(&zero, Self::scale_for(&currency));
        Self { amount: a, currency }
    }

    /// The whole number of units of the currency.
    pub fn from_i64(amount: i64, currency: CurrencyCode) -> (r: Self)
        ensures
            r.currency() == currency,
            r.amount() == amount_rescaled(amount_of_i64(amount as int), currency_scale(currency)),
    {
        let a = rescaled_of(&amount_from_i64(amount), Self::scale_for(&currency));
        Self { amount: a, currency }
    }

    /// The whole number of units of the currency.
    pub fn from_u64(amount: u64, currency: CurrencyCode) -> (r: Self)
        ensures
            r.currency() == currency,
            r.amount() == amount_rescaled(amount_of_u64(amount as int), currency_scale(currency)),
    {
        let a = rescaled_of(&amount_from_u64(amount), Self::scale_for(&currency));
        Self { amount: a, currency }
    }

    /// The integer of minor units of the currency: the integer read with as
    /// many digits after the decimal point as the currency has.
    pub fn from_bigint(amount: num_bigint::BigInt, currency: CurrencyCode) -> (r: Self)
        ensures
            r.currency() == currency,
            r.amount() == amount_rescaled(
                amount_of_digits(amount, currency_scale(currency)),
                currency_scale(currency),
            ),
    {
        let scale = Self::scale_for(&currency);
        let a = rescaled_of(&amount_from_digits(amount, scale), scale);
        Self { amount: a, currency }
    }

    /// The amount that was read from a text, in the currency; `None` where
    /// none was read or its scale lies beyond [`SCALE_LIMIT`].
    pub fn from_parsed<E>(parsed: Result<BigDecimal, E>, currency: CurrencyCode) -> (r: Option<
        Self,
    >)
        ensures
            r is Some == (parsed matches Ok(a) && scale_in_range(a)),
            r matches Some(m) ==> m.currency() == currency && m.amount() == amount_rescaled(
                parsed->Ok_0,
                currency_scale(currency),
            ),
    {
        match parsed {
            Ok(a) => Self::new(a, currency),
            Err(_) => None,
        }
    }

    /// The amount that the text denotes, in the currency; `None` where the
    /// text denotes no number or one whose scale lies beyond
    /// [`SCALE_LIMIT`].
    pub fn from_str(amount: &str, currency: CurrencyCode) -> (r: Option<Self>)
        ensures
            r is Some == (amount_parsed(amount@) matches Some(a) && scale_in_range(a)),
            r matches Some(m) ==> m.currency() == currency && m.amount() == amount_rescaled(
                amount_parsed(amount@)->Some_0,
                currency_scale(currency),
            ),
    {
        Self::from_parsed(parse_amount(amount), currency)
    }

    /// The amount.
    pub fn as_amount(&self) -> (r: &BigDecimal)
        ensures
            *r == self.amount(),
            scale_in_range(*r),
    {
        proof {
            use_type_invariant(self);
        }
        &self.amount
    }

    /// The currency.
    pub fn to_currency(&self) -> (r: CurrencyCode)
        ensures
            r == self.currency(),
    {
        self.currency
    }

    /// The amount without its sign.
    pub fn abs(&self) -> (r: Self)
        ensures
            r.amount() == amount_abs(self.amount()),
            r.currency() == self.currency(),
    {
        proof {
            use_type_invariant(self);
        }
        Self { amount: abs_of(&self.amount), currency: self.currency }
    }

    /// The amount is greater than zero.
    pub fn is_positive(&self) -> (r: bool)
        ensures
            r == amount_is_positive(self.amount()),
    {
        is_positive_of(&self.amount)
    }

    /// The amount is less than zero.
    pub fn is_negative(&self) -> (r: bool)
        ensures
            r == amount_is_negative(self.amount()),
    {
        is_negative_of(&self.amount)
    }

    /// The amount is zero.
    pub fn is_zero(&self) -> (r: bool)
        ensures
            r == amount_is_zero(self.amount()),
    {
        is_zero_of(&self.amount)
    }

    /// The amount with its sign turned.
    pub fn negated(self) -> (r: Self)
        ensures
            r.amount() == amount_negation(self.amount()),
            r.currency() == self.currency(),
    {
        proof {
            use_type_invariant(&self);
        }
        Self { amount: negation_of(self.amount), currency: self.currency }
    }

    /// The sum of the two amounts, or `NotSameCurrencyError` where they are
    /// in different currencies.
    pub fn add(self, other: Self) -> (r: Result<Self, MoneyError>)
        ensures
            r is Ok == self.same_currency(other),
            r matches Ok(m) ==> m.amount() == amount_sum(self.amount(), other.amount())
                && m.currency() == self.currency(),
            r matches Err(e) ==> e == MoneyError::NotSameCurrencyError,
    {
        proof {
            use_type_invariant(&self);
            use_type_invariant(&other);
        }
        if !same_currency_of(&self.currency, &other.currency) {
            Err(MoneyError::NotSameCurrencyError)
        } else {
            Ok(Self { amount: sum_of(self.amount, other.amount), currency: self.currency })
        }
    }

    /// The difference of the two amounts, or `NotSameCurrencyError` where
    /// they are in different currencies.
    pub fn subtract(self, other: Self) -> (r: Result<Self, MoneyError>)
        ensures
            r is Ok == self.same_currency(other),
            r matches Ok(m) ==> m.amount() == amount_sum(
                self.amount(),
                amount_negation(other.amount()),
            ) && m.currency() == self.currency(),
            r matches Err(e) ==> e == MoneyError::NotSameCurrencyError,
    {
        self.add(other.negated())
    }

    /// The money with the given amount in the given currency, where the
    /// scale of the amount lies within [`SCALE_LIMIT`].
    pub fn with_amount(amount: BigDecimal, currency: CurrencyCode) -> (r: Option<Self>)
        ensures
            r is Some == scale_in_range(amount),
            r matches Some(m) ==> m.amount() == amount && m.currency() == currency,
    {
        let scale = scale_of(&amount);
        if scale < -SCALE_LIMIT || scale > SCALE_LIMIT {
            None
        } else {
            Some(Self { amount, currency })
        }
    }

    /// The amount multiplied by `factor`; `None` where the scale of the
    /// factor or of the product lies beyond [`SCALE_LIMIT`].
    pub fn times(self, factor: BigDecimal) -> (r: Option<Self>)
        ensures
            r is Some == (scale_in_range(factor) && scale_in_range(
                amount_product(self.amount(), factor),
            )),
            r matches Some(m) ==> m.amount() == amount_product(self.amount(), factor)
                && m.currency() == self.currency(),
    {
        proof {
            use_type_invariant(&self);
        }
        let scale = scale_of(&factor);
        if scale < -SCALE_LIMIT || scale > SCALE_LIMIT {
            None
        } else {
            Self::with_amount(product_of(self.amount, factor), self.currency)
        }
    }

    /// The amount divided by `divisor`; `None` where the divisor is zero or
    /// the scale of the divisor or of the quotient lies beyond
    /// [`SCALE_LIMIT`].
    pub fn divided_by(self, divisor: BigDecimal) -> (r: Option<Self>)
        ensures
            r is Some == (!amount_is_zero(divisor) && scale_in_range(divisor) && scale_in_range(
                amount_quotient(self.amount(), divisor),
            )),
            r matches Some(m) ==> m.amount() == amount_quotient(self.amount(), divisor)
                && m.currency() == self.currency(),
    {
        proof {
            use_type_invariant(&self);
        }
        let scale = scale_of(&divisor);
        if is_zero_of(&divisor) || scale < -SCALE_LIMIT || scale > SCALE_LIMIT {
            None
        } else {
            Self::with_amount(quotient_of(self.amount, divisor), self.currency)
        }
    }
}

/// The answer of a comparison for the number that stands for it: `Less`
/// for a negative number, `Equal` for 0, `Greater` for a positive number.
pub open spec fn ordering_of(n: int) -> Ordering {
    if n < 0 {
        Ordering::Less
    } else if n == 0 {
        Ordering::Equal
    } else {
        Ordering::Greater
    }
}

/// The order of amounts of money: none between different currencies, and
/// that of the amounts within one currency.
pub open spec fn money_order(a: Money, b: Money) -> Option<Ordering> {
    if a.same_currency(b) {
        Some(ordering_of(amount_order(a.amount(), b.amount())))
    } else {
        None
    }
}

impl Clone for Money {
    fn clone(&self) -> (r: Self)
        ensures
            r.amount() == self.amount(),
            r.currency() == self.currency(),
    {
        proof {
            use_type_invariant(self);
        }
        Self { amount: clone_of(&self.amount), currency: self.currency }
    }
}

impl PartialEq for Money {
    fn eq(&self, other: &Self) -> (r: bool) {
        proof {
            use_type_invariant(self);
            use_type_invariant(other);
        }
        equal_of(&self.amount, &other.amount) && same_currency_of(&self.currency, &other.currency)
    }
}

impl PartialEqSpecImpl for Money {
    open spec fn obeys_eq_spec() -> bool {
        true
    }

    open spec fn eq_spec(&self, other: &Self) -> bool {
        amount_equal(self.amount(), other.amount()) && self.same_currency(*other)
    }
}

impl Eq for Money {

}

impl core::hash::Hash for Money {
    /// Feeds the amount and the number of the currency to the hasher,
    /// through bigdecimal's `Hash::hash` for `BigDecimal` and std's for
    /// `u32`. Nothing is claimed of the hasher's state.
    #[verifier::external_body]
    fn hash<H: core::hash::Hasher>(&self, state: &mut H) {
        core::hash::Hash::hash(&self.amount, state);
        core::hash::Hash::hash(&self.currency.num(), state)
    }
}

impl PartialOrd for Money {
    fn partial_cmp(&self, other: &Self) -> (r: Option<Ordering>) {
        proof {
            use_type_invariant(self);
            use_type_invariant(other);
        }
        if !same_currency_of(&self.currency, &other.currency) {
            None
        } else {
            let order = order_of(&self.amount, &other.amount);
            if order < 0 {
                Some(Ordering::Less)
            } else if order == 0 {
                Some(Ordering::Equal)
            } else {
                Some(Ordering::Greater)
            }
        }
    }
}

impl PartialOrdSpecImpl for Money {
    open spec fn obeys_partial_cmp_spec() -> bool {
        true
    }

    open spec fn partial_cmp_spec(&self, other: &Self) -> Option<Ordering> {
        money_order(*self, *other)
    }
}

impl core::ops::Add for Money {
    type Output = Money;

    /// The sum of two amounts in one currency: what [`Money::add`] gives.
    fn add(self, rhs: Self) -> (r: Money) {
        match Money::add(self, rhs) {
            Ok(m) => m,
            Err(_) => unreached(),
        }
    }
}

impl AddSpecImpl for Money {
    open spec fn obeys_add_spec() -> bool {
        true
    }

    open spec fn add_req(self, rhs: Self) -> bool {
        self.same_currency(rhs)
    }

    closed spec fn add_spec(self, rhs: Self) -> Self {
        Money { amount: amount_sum(self.amount, rhs.amount), currency: self.currency }
    }
}

/// The sum that `+` gives is that of the amounts, in the currency of the
/// first.
pub proof fn lemma_sum_of_money(a: Money, b: Money)
    ensures
        vstd::std_specs::ops::AddSpec::add_spec(a, b).amount() == amount_sum(
            a.amount(),
            b.amount(),
        ),
        vstd::std_specs::ops::AddSpec::add_spec(a, b).currency() == a.currency(),
{
}

impl core::ops::Sub for Money {
    type Output = Money;

    /// The difference of two amounts in one currency.
    fn sub(self, rhs: Self) -> (r: Money)
        ensures
            r.amount() == amount_sum(self.amount(), amount_negation(rhs.amount())),
            r.currency() == self.currency(),
    {
        match Money::subtract(self, rhs) {
            Ok(m) => m,
            Err(_) => unreached(),
        }
    }
}

impl SubSpecImpl for Money {
    open spec fn obeys_sub_spec() -> bool {
        true
    }

    open spec fn sub_req(self, rhs: Self) -> bool {
        self.same_currency(rhs)
    }

    closed spec fn sub_spec(self, rhs: Self) -> Self {
        Money {
            amount: amount_sum(self.amount, amount_negation(rhs.amount)),
            currency: self.currency,
        }
    }
}

impl core::ops::Mul<BigDecimal> for Money {
    type Output = Money;

    /// The amount multiplied by a factor, where the scales of the factor
    /// and of the product lie within [`SCALE_LIMIT`].
    fn mul(self, rhs: BigDecimal) -> (r: Money)
        ensures
            r.amount() == amount_product(self.amount(), rhs),
            r.currency() == self.currency(),
    {
        match Money::times(self, rhs) {
            Some(m) => m,
            None => unreached(),
        }
    }
}

impl MulSpecImpl<BigDecimal> for Money {
    open spec fn obeys_mul_spec() -> bool {
        true
    }

    open spec fn mul_req(self, rhs: BigDecimal) -> bool {
        scale_in_range(rhs) && scale_in_range(amount_product(self.amount(), rhs))
    }

    closed spec fn mul_spec(self, rhs: BigDecimal) -> Self {
        Money { amount: amount_product(self.amount, rhs), currency: self.currency }
    }
}

impl core::ops::Div<BigDecimal> for Money {
    type Output = Money;

    /// The amount divided by a divisor that is not zero, where the scales
    /// of the divisor and of the quotient lie within [`SCALE_LIMIT`].
    fn div(self, rhs: BigDecimal) -> (r: Money)
        ensures
            r.amount() == amount_quotient(self.amount(), rhs),
            r.currency() == self.currency(),
    {
        match Money::divided_by(self, rhs) {
            Some(m) => m,
            None => unreached(),
        }
    }
}

impl DivSpecImpl<BigDecimal> for Money {
    open spec fn obeys_div_spec() -> bool {
        true
    }

    open spec fn div_req(self, rhs: BigDecimal) -> bool {
        !amount_is_zero(rhs) && scale_in_range(rhs) && scale_in_range(
            amount_quotient(self.amount(), rhs),
        )
    }

    closed spec fn div_spec(self, rhs: BigDecimal) -> Self {
        Money { amount: amount_quotient(self.amount, rhs), currency: self.currency }
    }
}

impl core::ops::Neg for Money {
    type Output = Money;

    /// The amount with its sign turned.
    fn neg(self) -> (r: Money)
        ensures
            r.amount() == amount_negation(self.amount()),
            r.currency() == self.currency(),
    {
        Money::negated(self)
    }
}

impl NegSpecImpl for Money {
    open spec fn obeys_neg_spec() -> bool {
        true
    }

    open spec fn neg_req(self) -> bool {
        true
    }

    closed spec fn neg_spec(self) -> Self {
        Money { amount: amount_negation(self.amount), currency: self.currency }
    }
}

impl From<(i8, CurrencyCode)> for Money {
    /// The whole number of units of the currency.
    fn from(pair: (i8, CurrencyCode)) -> (r: Self)
        ensures
            r.currency() == pair.1,
            r.amount() == amount_rescaled(amount_of_i64(pair.0 as int), currency_scale(pair.1)),
    {
        Money::from_i64(pair.0 as i64, pair.1)
    }
}

impl FromSpecImpl<(i8, CurrencyCode)> for Money {
    open spec fn obeys_from_spec() -> bool {
        true
    }

    closed spec fn from_spec(pair: (i8, CurrencyCode)) -> Self {
        Money {
            amount: amount_rescaled(amount_of_i64(pair.0 as int), currency_scale(pair.1)),
            currency: pair.1,
        }
    }
}

impl From<(i16, CurrencyCode)> for Money {
    /// The whole number of units of the currency.
    fn from(pair: (i16, CurrencyCode)) -> (r: Self)
        ensures
            r.currency() == pair.1,
            r.amount() == amount_rescaled(amount_of_i64(pair.0 as int), currency_scale(pair.1)),
    {
        Money::from_i64(pair.0 as i64, pair.1)
    }
}

impl FromSpecImpl<(i16, CurrencyCode)> for Money {
    open spec fn obeys_from_spec() -> bool {
        true
    }

    closed spec fn from_spec(pair: (i16, CurrencyCode)) -> Self {
        Money {
            amount: amount_rescaled(amount_of_i64(pair.0 as int), currency_scale(pair.1)),
            currency: pair.1,
        }
    }
}

impl From<(i32, CurrencyCode)> for Money {
    /// The whole number of units of the currency.
    fn from(pair: (i32, CurrencyCode)) -> (r: Self)
        ensures
            r.currency() == pair.1,
            r.amount() == amount_rescaled(amount_of_i64(pair.0 as int), currency_scale(pair.1)),
    {
        Money::from_i64(pair.0 as i64, pair.1)
    }
}

impl FromSpecImpl<(i32, CurrencyCode)> for Money {
    open spec fn obeys_from_spec() -> bool {
        true
    }

    closed spec fn from_spec(pair: (i32, CurrencyCode)) -> Self {
        Money {
            amount: amount_rescaled(amount_of_i64(pair.0 as int), currency_scale(pair.1)),
            currency: pair.1,
        }
    }
}

impl From<(i64, CurrencyCode)> for Money {
    /// The whole number of units of the currency.
    fn from(pair: (i64, CurrencyCode)) -> (r: Self)
        ensures
            r.currency() == pair.1,
            r.amount() == amount_rescaled(amount_of_i64(pair.0 as int), currency_scale(pair.1)),
    {
        Money::from_i64(pair.0, pair.1)
    }
}

impl FromSpecImpl<(i64, CurrencyCode)> for Money {
    open spec fn obeys_from_spec() -> bool {
        true
    }

    closed spec fn from_spec(pair: (i64, CurrencyCode)) -> Self {
        Money {
            amount: amount_rescaled(amount_of_i64(pair.0 as int), currency_scale(pair.1)),
            currency: pair.1,
        }
    }
}

impl From<(u8, CurrencyCode)> for Money {
    /// The whole number of units of the currency.
    fn from(pair: (u8, CurrencyCode)) -> (r: Self)
        ensures
            r.currency() == pair.1,
            r.amount() == amount_rescaled(amount_of_u64(pair.0 as int), currency_scale(pair.1)),
    {
        Money::from_u64(pair.0 as u64, pair.1)
    }
}

impl FromSpecImpl<(u8, CurrencyCode)> for Money {
    open spec fn obeys_from_spec() -> bool {
        true
    }

    closed spec fn from_spec(pair: (u8, CurrencyCode)) -> Self {
        Money {
            amount: amount_rescaled(amount_of_u64(pair.0 as int), currency_scale(pair.1)),
            currency: pair.1,
        }
    }
}

impl From<(u16, CurrencyCode)> for Money {
    /// The whole number of units of the currency.
    fn from(pair: (u16, CurrencyCode)) -> (r: Self)
        ensures
            r.currency() == pair.1,
            r.amount() == amount_rescaled(amount_of_u64(pair.0 as int), currency_scale(pair.1)),
    {
        Money::from_u64(pair.0 as u64, pair.1)
    }
}

impl FromSpecImpl<(u16, CurrencyCode)> for Money {
    open spec fn obeys_from_spec() -> bool {
        true
    }

    closed spec fn from_spec(pair: (u16, CurrencyCode)) -> Self {
        Money {
            amount: amount_rescaled(amount_of_u64(pair.0 as int), currency_scale(pair.1)),
            currency: pair.1,
        }
    }
}

impl From<(u32, CurrencyCode)> for Money {
    /// The whole number of units of the currency.
    fn from(pair: (u32, CurrencyCode)) -> (r: Self)
        ensures
            r.currency() == pair.1,
            r.amount() == amount_rescaled(amount_of_u64(pair.0 as int), currency_scale(pair.1)),
    {
        Money::from_u64(pair.0 as u64, pair.1)
    }
}

impl FromSpecImpl<(u32, CurrencyCode)> for Money {
    open spec fn obeys_from_spec() -> bool {
        true
    }

    closed spec fn from_spec(pair: (u32, CurrencyCode)) -> Self {
        Money {
            amount: amount_rescaled(amount_of_u64(pair.0 as int), currency_scale(pair.1)),
            currency: pair.1,
        }
    }
}

impl From<(u64, CurrencyCode)> for Money {
    /// The whole number of units of the currency.
    fn from(pair: (u64, CurrencyCode)) -> (r: Self)
        ensures
            r.currency() == pair.1,
            r.amount() == amount_rescaled(amount_of_u64(pair.0 as int), currency_scale(pair.1)),
    {
        Money::from_u64(pair.0, pair.1)
    }
}

impl FromSpecImpl<(u64, CurrencyCode)> for Money {
    open spec fn obeys_from_spec() -> bool {
        true
    }

    closed spec fn from_spec(pair: (u64, CurrencyCode)) -> Self {
        Money {
            amount: amount_rescaled(amount_of_u64(pair.0 as int), currency_scale(pair.1)),
            currency: pair.1,
        }
    }
}

} // verus!
