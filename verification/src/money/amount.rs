//! Decimal amounts of arbitrary precision, computed by bigdecimal, and the
//! currencies of iso_4217.
//!
//! A `BigDecimal` is an integer of any size with a scale, the number of its
//! digits that stand after the decimal point. Verus sees nothing inside one.
//! The functions of this file call bigdecimal and iso_4217, and Verus takes
//! their contracts on trust. What a call returns has a name here, a spec
//! function without a body; of the scale the contracts state what
//! bigdecimal's source shows, since bigdecimal panics where scales lie too
//! far apart for 64 bits, and every call is kept to scales within
//! [`SCALE_LIMIT`].

use bigdecimal::BigDecimal;
use iso_4217::CurrencyCode;
use std::cmp::Ordering;
use vstd::prelude::*;

verus! {

/// bigdecimal's decimal number of arbitrary precision.
#[verifier::external_type_specification]
#[verifier::external_body]
pub struct ExBigDecimal(BigDecimal);

/// iso_4217's currency code.
#[verifier::external_type_specification]
#[verifier::external_body]
pub struct ExCurrencyCode(CurrencyCode);

/// num_bigint's integer of arbitrary size.
#[verifier::external_type_specification]
#[verifier::external_body]
pub struct ExBigInt(num_bigint::BigInt);

/// bigdecimal's reason for not reading a text as a number.
#[verifier::external_type_specification]
#[verifier::external_body]
pub struct ExParseBigDecimalError(bigdecimal::ParseBigDecimalError);

/// The scale of the amount: how many of its digits stand after the decimal
/// point; negative where the amount ends in zeros that are not written.
pub uninterp spec fn amount_scale(amount: BigDecimal) -> int;

/// The amount is zero.
pub uninterp spec fn amount_is_zero(amount: BigDecimal) -> bool;

/// The amount is greater than zero.
pub uninterp spec fn amount_is_positive(amount: BigDecimal) -> bool;

/// The amount is less than zero.
pub uninterp spec fn amount_is_negative(amount: BigDecimal) -> bool;

/// The two amounts are the same number, whatever their scales.
pub uninterp spec fn amount_equal(a: BigDecimal, b: BigDecimal) -> bool;

/// The first amount compared with the second: -1 where it is the lesser, 0
/// where the two are the same number, 1 where it is the greater.
pub uninterp spec fn amount_order(a: BigDecimal, b: BigDecimal) -> int;

/// The sum of the two amounts.
pub uninterp spec fn amount_sum(a: BigDecimal, b: BigDecimal) -> BigDecimal;

/// The amount with its sign turned.
pub uninterp spec fn amount_negation(a: BigDecimal) -> BigDecimal;

/// The amount without its sign.
pub uninterp spec fn amount_abs(a: BigDecimal) -> BigDecimal;

/// The product of the two amounts.
pub uninterp spec fn amount_product(a: BigDecimal, b: BigDecimal) -> BigDecimal;

/// The quotient of the two amounts, to bigdecimal's precision.
pub uninterp spec fn amount_quotient(a: BigDecimal, b: BigDecimal) -> BigDecimal;

/// The amount brought to the given scale, digits beyond it cut off.
pub uninterp spec fn amount_rescaled(a: BigDecimal, scale: int) -> BigDecimal;

/// The whole number of 64 bits with a sign, as an amount.
pub uninterp spec fn amount_of_i64(n: int) -> BigDecimal;

/// The whole number of 64 bits without a sign, as an amount.
pub uninterp spec fn amount_of_u64(n: int) -> BigDecimal;

/// The integer read with the given number of its digits after the decimal
/// point.
pub uninterp spec fn amount_of_digits(digits: num_bigint::BigInt, scale: int) -> BigDecimal;

/// The amount that the text denotes, where it denotes one.
pub uninterp spec fn amount_parsed(text: Seq<char>) -> Option<BigDecimal>;

/// The number of the currency in ISO 4217.
pub uninterp spec fn currency_number(currency: CurrencyCode) -> int;

/// The number of digits after the decimal point that the currency uses,
/// where it uses a fixed number.
pub uninterp spec fn currency_digits(currency: CurrencyCode) -> Option<int>;

/// The scales between which the library computes with amounts.
pub const SCALE_LIMIT: i64 = 1_000_000;

/// The scale of the amount lies within [`SCALE_LIMIT`] of zero.
pub open spec fn scale_in_range(amount: BigDecimal) -> bool {
    -SCALE_LIMIT <= amount_scale(amount) <= SCALE_LIMIT
}

/// Calls bigdecimal's `BigDecimal::fractional_digit_count`, which gives the
/// scale.
#[verifier::external_body]
pub(crate) fn scale_of(amount: &BigDecimal) -> (r: i64)
    ensures
        r == amount_scale(*amount),
{
    amount.fractional_digit_count()
}

/// Calls bigdecimal's `Zero::is_zero` for `BigDecimal`.
#[verifier::external_body]
pub(crate) fn is_zero_of(amount: &BigDecimal) -> (r: bool)
    ensures
        r == amount_is_zero(*amount),
{
    bigdecimal::Zero::is_zero(amount)
}

/// Compares the amount with bigdecimal's `Zero::zero` by `>`, bigdecimal's
/// `PartialOrd::gt`.
#[verifier::external_body]
pub(crate) fn is_positive_of(amount: &BigDecimal) -> (r: bool)
    ensures
        r == amount_is_positive(*amount),
{
    *amount > <BigDecimal as bigdecimal::Zero>::zero()
}

/// Compares the amount with bigdecimal's `Zero::zero` by `<`, bigdecimal's
/// `PartialOrd::lt`.
#[verifier::external_body]
pub(crate) fn is_negative_of(amount: &BigDecimal) -> (r: bool)
    ensures
        r == amount_is_negative(*amount),
{
    *amount < <BigDecimal as bigdecimal::Zero>::zero()
}

/// Calls bigdecimal's `PartialEq::eq` for `BigDecimal`, which compares the
/// numbers and not their scales.
///
/// Both scales are kept within [`SCALE_LIMIT`], so that their difference is
/// a count of digits that fits the machine.
#[verifier::external_body]
pub(crate) fn equal_of(a: &BigDecimal, b: &BigDecimal) -> (r: bool)
    requires
        scale_in_range(*a),
        scale_in_range(*b),
    ensures
        r == amount_equal(*a, *b),
{
    a == b
}

/// Calls bigdecimal's `Ord::cmp` for `BigDecimal`, and gives -1 for `Less`,
/// 0 for `Equal` and 1 for `Greater`.
///
/// Both scales are kept within [`SCALE_LIMIT`], so that their difference is
/// a count of digits that fits the machine.
#[verifier::external_body]
pub(crate) fn order_of(a: &BigDecimal, b: &BigDecimal) -> (r: i8)
    requires
        scale_in_range(*a),
        scale_in_range(*b),
    ensures
        r == amount_order(*a, *b),
        -1 <= r <= 1,
{
    match a.cmp(b) {
        Ordering::Less => -1,
        Ordering::Equal => 0,
        Ordering::Greater => 1,
    }
}

/// Calls std's `Clone::clone` for `BigDecimal`: the clone is the same
/// amount, scale included.
#[verifier::external_body]
pub(crate) fn clone_of(amount: &BigDecimal) -> (r: BigDecimal)
    ensures
        r == *amount,
{
    amount.clone()
}

/// Calls bigdecimal's `Zero::zero` for `BigDecimal`: zero with the scale 0.
#[verifier::external_body]
pub(crate) fn zero_amount() -> (r: BigDecimal)
    ensures
        amount_is_zero(r),
        amount_scale(r) == 0,
{
    <BigDecimal as bigdecimal::Zero>::zero()
}

/// Calls bigdecimal's `From<i64>` for `BigDecimal`: the number with the
/// scale 0.
#[verifier::external_body]
pub(crate) fn amount_from_i64(n: i64) -> (r: BigDecimal)
    ensures
        r == amount_of_i64(n as int),
        amount_scale(r) == 0,
{
    BigDecimal::from(n)
}

/// Calls bigdecimal's `From<u64>` for `BigDecimal`: the number with the
/// scale 0.
#[verifier::external_body]
pub(crate) fn amount_from_u64(n: u64) -> (r: BigDecimal)
    ensures
        r == amount_of_u64(n as int),
        amount_scale(r) == 0,
{
    BigDecimal::from(n)
}

/// Calls bigdecimal's `From<(BigInt, i64)>` for `BigDecimal`: the integer
/// with the given scale.
#[verifier::external_body]
pub(crate) fn amount_from_digits(digits: num_bigint::BigInt, scale: i64) -> (r: BigDecimal)
    ensures
        r == amount_of_digits(digits, scale as int),
        amount_scale(r) == scale,
{
    BigDecimal::from((digits, scale))
}

/// Calls bigdecimal's `FromStr::from_str` for `BigDecimal`. The contract
/// only names the result.
#[verifier::external_body]
pub(crate) fn parse_amount(text: &str) -> (r: Result<BigDecimal, bigdecimal::ParseBigDecimalError>)
    ensures
        amount_parsed(text@) == match r {
            Ok(amount) => Some(amount),
            Err(_) => None,
        },
{
    <BigDecimal as std::str::FromStr>::from_str(text)
}

/// Calls bigdecimal's `BigDecimal::with_scale`, which gives the amount with
/// its scale set to the given one.
///
/// Both scales are kept within [`SCALE_LIMIT`]: bigdecimal subtracts one
/// from the other in 64 bits.
#[verifier::external_body]
pub(crate) fn rescaled_of(amount: &BigDecimal, scale: i64) -> (r: BigDecimal)
    requires
        scale_in_range(*amount),
        -SCALE_LIMIT <= scale <= SCALE_LIMIT,
    ensures
        r == amount_rescaled(*amount, scale as int),
        amount_scale(r) == scale,
{
    amount.with_scale(scale)
}

/// Calls bigdecimal's `BigDecimal::abs`, which keeps the scale.
#[verifier::external_body]
pub(crate) fn abs_of(amount: &BigDecimal) -> (r: BigDecimal)
    ensures
        r == amount_abs(*amount),
        amount_scale(r) == amount_scale(*amount),
{
    amount.abs()
}

/// Calls bigdecimal's `Neg::neg` for `BigDecimal`, which keeps the scale.
#[verifier::external_body]
pub(crate) fn negation_of(amount: BigDecimal) -> (r: BigDecimal)
    ensures
        r == amount_negation(amount),
        amount_scale(r) == amount_scale(amount),
{
    -amount
}

/// Calls bigdecimal's `Add::add` for two `BigDecimal`s, which brings both
/// to the greater of the two scales and adds.
///
/// Both scales are kept within [`SCALE_LIMIT`]: bigdecimal panics where
/// their difference does not fit in 64 bits.
#[verifier::external_body]
pub(crate) fn sum_of(a: BigDecimal, b: BigDecimal) -> (r: BigDecimal)
    requires
        scale_in_range(a),
        scale_in_range(b),
    ensures
        r == amount_sum(a, b),
        amount_scale(r) == if amount_scale(a) >= amount_scale(b) {
            amount_scale(a)
        } else {
            amount_scale(b)
        },
{
    a + b
}

/// Calls bigdecimal's `Mul::mul` for two `BigDecimal`s. The contract only
/// names the result.
///
/// Both scales are kept within [`SCALE_LIMIT`]: bigdecimal adds them in 64
/// bits.
#[verifier::external_body]
pub(crate) fn product_of(a: BigDecimal, b: BigDecimal) -> (r: BigDecimal)
    requires
        scale_in_range(a),
        scale_in_range(b),
    ensures
        r == amount_product(a, b),
{
    a * b
}

/// Calls bigdecimal's `Div::div` for two `BigDecimal`s. The contract only
/// names the result.
///
/// The divisor is not zero, on which bigdecimal panics, and both scales are
/// kept within [`SCALE_LIMIT`]: bigdecimal subtracts one from the other in
/// 64 bits.
#[verifier::external_body]
pub(crate) fn quotient_of(a: BigDecimal, b: BigDecimal) -> (r: BigDecimal)
    requires
        scale_in_range(a),
        scale_in_range(b),
        !amount_is_zero(b),
    ensures
        r == amount_quotient(a, b),
{
    a / b
}

/// Calls iso_4217's `CurrencyCode::digit`. Besides naming the result, the
/// contract states that no currency of the crate's table has more than 4
/// digits.
#[verifier::external_body]
pub(crate) fn digits_of(currency: &CurrencyCode) -> (r: Option<u32>)
    ensures
        currency_digits(*currency) == match r {
            Some(d) => Some(d as int),
            None => None,
        },
        r matches Some(d) ==> d <= 4,
{
    currency.digit()
}

/// Calls std's `PartialEq::eq` for `CurrencyCode`, which iso_4217 derives:
/// two codes are equal where they are the same currency, and each currency
/// has a number of its own.
#[verifier::external_body]
pub(crate) fn same_currency_of(a: &CurrencyCode, b: &CurrencyCode) -> (r: bool)
    ensures
        r == (currency_number(*a) == currency_number(*b)),
{
    a == b
}

} // verus!
