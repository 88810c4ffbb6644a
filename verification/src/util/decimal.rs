//! Decimal numbers of 96 bits, computed by rust_decimal.
//!
//! A number is held as its mantissa and its scale, which is all that a
//! `rust_decimal::Decimal` holds. The arithmetic is rust_decimal's: the
//! functions at the end of this file call it, and Verus takes their contracts
//! on trust. Each result has a name, a spec function without a body, over
//! mantissas and scales.

use vstd::prelude::*;

verus! {

/// The quotient of two decimal numbers, each given by mantissa and scale, as
/// mantissa and scale; `None` where rust_decimal has no quotient.
pub uninterp spec fn decimal_quotient(
    mantissa: int,
    scale: int,
    divisor_mantissa: int,
    divisor_scale: int,
) -> Option<(int, int)>;

/// The product of two decimal numbers, each given by mantissa and scale, as
/// mantissa and scale; `None` where rust_decimal has no product.
pub uninterp spec fn decimal_product(
    mantissa: int,
    scale: int,
    factor_mantissa: int,
    factor_scale: int,
) -> Option<(int, int)>;

/// The remainder of the division of two decimal numbers, each given by
/// mantissa and scale, as mantissa and scale; `None` where rust_decimal has
/// no remainder.
pub uninterp spec fn decimal_remainder(
    mantissa: int,
    scale: int,
    divisor_mantissa: int,
    divisor_scale: int,
) -> Option<(int, int)>;

/// The decimal number rounded to the given number of places by the strategy
/// with the given number, as mantissa and scale.
pub uninterp spec fn decimal_rounded(mantissa: int, scale: int, places: int, strategy: int) -> (
    int,
    int,
);

/// How a number is rounded where digits are cut off.
#[derive(Debug, Clone, Copy, PartialEq, Eq, Structural, Hash)]
pub enum RoundingStrategy {
    /// To the nearest number, and to the even one of two equally near.
    MidpointNearestEven,
    /// To the nearest number, and away from zero between two equally near.
    MidpointAwayFromZero,
    /// To the nearest number, and toward zero between two equally near.
    MidpointTowardZero,
    /// Always toward zero.
    ToZero,
    /// Always away from zero.
    AwayFromZero,
    /// Always downward.
    ToNegativeInfinity,
    /// Always upward.
    ToPositiveInfinity,
}

impl RoundingStrategy {
    /// The strategy's number, from 0 in the order of declaration.
    pub open spec fn number(self) -> int {
        match self {
            RoundingStrategy::MidpointNearestEven => 0,
            RoundingStrategy::MidpointAwayFromZero => 1,
            RoundingStrategy::MidpointTowardZero => 2,
            RoundingStrategy::ToZero => 3,
            RoundingStrategy::AwayFromZero => 4,
            RoundingStrategy::ToNegativeInfinity => 5,
            RoundingStrategy::ToPositiveInfinity => 6,
        }
    }
}

/// The greatest mantissa: 96 bits, all set.
pub const MAX_MANTISSA: i128 = 79_228_162_514_264_337_593_543_950_335;

/// The greatest scale.
pub const MAX_SCALE: u32 = 28;

/// The decimal number `mantissa / 10^scale`.
///
/// The mantissa has at most 96 bits and the scale is at most 28. Two numbers
/// are equal where mantissa and scale are: 1.0 and 1.00 differ.
#[derive(Debug, Clone, Copy, PartialEq, Eq, Structural, Hash)]
pub struct DecimalNumber {
    mantissa: i128,
    scale: u32,
}

impl DecimalNumber {
    /// The digits of the number as an integer.
    pub closed spec fn mantissa(self) -> int {
        self.mantissa as int
    }

    /// How many of the digits stand after the decimal point.
    pub closed spec fn scale(self) -> int {
        self.scale as int
    }

    /// Mantissa and scale are those of a decimal number of 96 bits.
    pub open spec fn in_range(mantissa: int, scale: int) -> bool {
        -MAX_MANTISSA <= mantissa <= MAX_MANTISSA && 0 <= scale <= MAX_SCALE
    }

    #[verifier::type_invariant]
    spec fn is_decimal(self) -> bool {
        Self::in_range(self.mantissa as int, self.scale as int)
    }

    /// The number with the given mantissa and scale, or `None` where they
    /// are out of range.
    pub fn new(mantissa: i128, scale: u32) -> (r: Option<Self>)
        ensures
            r is Some == Self::in_range(mantissa as int, scale as int),
            r matches Some(d) ==> d.mantissa() == mantissa && d.scale() == scale,
    {
        if -MAX_MANTISSA <= mantissa && mantissa <= MAX_MANTISSA && scale <= MAX_SCALE {
            Some(Self { mantissa, scale })
        } else {
            None
        }
    }

    /// The whole number `n`.
    pub fn from_i64(n: i64) -> (r: Self)
        ensures
            r.mantissa() == n,
            r.scale() == 0,
    {
        Self { mantissa: n as i128, scale: 0 }
    }

    /// The digits of the number as an integer.
    pub fn to_mantissa(&self) -> (r: i128)
        ensures
            r == self.mantissa(),
            Self::in_range(self.mantissa(), self.scale()),
    {
        proof {
            use_type_invariant(self);
        }
        self.mantissa
    }

    /// How many of the digits stand after the decimal point.
    pub fn to_scale(&self) -> (r: u32)
        ensures
            r == self.scale(),
            Self::in_range(self.mantissa(), self.scale()),
    {
        proof {
            use_type_invariant(self);
        }
        self.scale
    }

    /// The number is zero.
    pub fn is_zero(&self) -> (r: bool)
        ensures
            r == (self.mantissa() == 0),
    {
        self.mantissa == 0
    }

    /// The quotient of this number and `divisor`, or `None` where it does
    /// not fit or `divisor` is zero.
    pub fn checked_div(self, divisor: DecimalNumber) -> (r: Option<DecimalNumber>)
        ensures
            decimal_quotient(
                self.mantissa(),
                self.scale(),
                divisor.mantissa(),
                divisor.scale(),
            ) == parts(r),
            divisor.mantissa() == 0 ==> r is None,
    {
        quotient_of(self, divisor)
    }

    /// The remainder of the division of this number by `divisor`, or `None`
    /// where it does not fit or `divisor` is zero.
    pub fn checked_rem(self, divisor: DecimalNumber) -> (r: Option<DecimalNumber>)
        ensures
            decimal_remainder(
                self.mantissa(),
                self.scale(),
                divisor.mantissa(),
                divisor.scale(),
            ) == parts(r),
            divisor.mantissa() == 0 ==> r is None,
    {
        remainder_of(self, divisor)
    }

    /// The product of this number and `factor`, or `None` where it does not
    /// fit.
    pub fn checked_mul(self, factor: DecimalNumber) -> (r: Option<DecimalNumber>)
        ensures
            decimal_product(self.mantissa(), self.scale(), factor.mantissa(), factor.scale())
                == parts(r),
    {
        product_of(self, factor)
    }

    /// The number rounded to the given number of places after the decimal
    /// point.
    pub fn round_dp_with_strategy(self, places: u32, strategy: RoundingStrategy) -> (r:
        DecimalNumber)
        ensures
            decimal_rounded(self.mantissa(), self.scale(), places as int, strategy.number()) == (
                r.mantissa(),
                r.scale(),
            ),
    {
        rounded_of(self, places, strategy)
    }
}

/// Mantissa and scale of the number, where there is one.
pub open spec fn parts(number: Option<DecimalNumber>) -> Option<(int, int)> {
    match number {
        Some(d) => Some((d.mantissa(), d.scale())),
        None => None,
    }
}

/// Calls rust_decimal's `Decimal::checked_div` on the two numbers, made with
/// `Decimal::from_i128_with_scale` and read back with `Decimal::mantissa` and
/// `Decimal::scale`.
///
/// The contract names the result and states that there is none for a
/// divisor of zero, as rust_decimal's division reports. A result lies in
/// the range of [`DecimalNumber`], as the mantissa and the scale of every
/// `Decimal` do.
#[verifier::external_body]
fn quotient_of(a: DecimalNumber, b: DecimalNumber) -> (r: Option<DecimalNumber>)
    ensures
        decimal_quotient(a.mantissa(), a.scale(), b.mantissa(), b.scale()) == parts(r),
        b.mantissa() == 0 ==> r is None,
{
    let x = rust_decimal::Decimal::from_i128_with_scale(a.mantissa, a.scale);
    let y = rust_decimal::Decimal::from_i128_with_scale(b.mantissa, b.scale);
    let q = x.checked_div(y)?;
    Some(DecimalNumber { mantissa: q.mantissa(), scale: q.scale() })
}

/// Calls rust_decimal's `Decimal::checked_rem` on the two numbers, made with
/// `Decimal::from_i128_with_scale` and read back with `Decimal::mantissa` and
/// `Decimal::scale`.
///
/// The contract names the result and states that there is none for a
/// divisor of zero, as rust_decimal's remainder reports. A result lies in
/// the range of [`DecimalNumber`], as the mantissa and the scale of every
/// `Decimal` do.
#[verifier::external_body]
fn remainder_of(a: DecimalNumber, b: DecimalNumber) -> (r: Option<DecimalNumber>)
    ensures
        decimal_remainder(a.mantissa(), a.scale(), b.mantissa(), b.scale()) == parts(r),
        b.mantissa() == 0 ==> r is None,
{
    let x = rust_decimal::Decimal::from_i128_with_scale(a.mantissa, a.scale);
    let y = rust_decimal::Decimal::from_i128_with_scale(b.mantissa, b.scale);
    let m = x.checked_rem(y)?;
    Some(DecimalNumber { mantissa: m.mantissa(), scale: m.scale() })
}

/// Calls rust_decimal's `Decimal::checked_mul` on the two numbers, made with
/// `Decimal::from_i128_with_scale` and read back with `Decimal::mantissa` and
/// `Decimal::scale`. The contract only names the result. A result lies in
/// the range of [`DecimalNumber`], as the mantissa and the scale of every
/// `Decimal` do.
#[verifier::external_body]
fn product_of(a: DecimalNumber, b: DecimalNumber) -> (r: Option<DecimalNumber>)
    ensures
        decimal_product(a.mantissa(), a.scale(), b.mantissa(), b.scale()) == parts(r),
{
    let x = rust_decimal::Decimal::from_i128_with_scale(a.mantissa, a.scale);
    let y = rust_decimal::Decimal::from_i128_with_scale(b.mantissa, b.scale);
    let p = x.checked_mul(y)?;
    Some(DecimalNumber { mantissa: p.mantissa(), scale: p.scale() })
}

/// Calls rust_decimal's `Decimal::round_dp_with_strategy` on the number, made
/// with `Decimal::from_i128_with_scale` and read back with
/// `Decimal::mantissa` and `Decimal::scale`, with rust_decimal's strategy of
/// the same name. The contract only names the result. The result lies in
/// the range of [`DecimalNumber`], as the mantissa and the scale of every
/// `Decimal` do.
#[verifier::external_body]
fn rounded_of(a: DecimalNumber, places: u32, strategy: RoundingStrategy) -> (r: DecimalNumber)
    ensures
        decimal_rounded(a.mantissa(), a.scale(), places as int, strategy.number()) == (
            r.mantissa(),
            r.scale(),
        ),
{
    let x = rust_decimal::Decimal::from_i128_with_scale(a.mantissa, a.scale);
    let y = x.round_dp_with_strategy(places, match strategy {
        RoundingStrategy::MidpointNearestEven => rust_decimal::RoundingStrategy::MidpointNearestEven,
        RoundingStrategy::MidpointAwayFromZero => rust_decimal::RoundingStrategy::MidpointAwayFromZero,
        RoundingStrategy::MidpointTowardZero => rust_decimal::RoundingStrategy::MidpointTowardZero,
        RoundingStrategy::ToZero => rust_decimal::RoundingStrategy::ToZero,
        RoundingStrategy::AwayFromZero => rust_decimal::RoundingStrategy::AwayFromZero,
        RoundingStrategy::ToNegativeInfinity => rust_decimal::RoundingStrategy::ToNegativeInfinity,
        RoundingStrategy::ToPositiveInfinity => rust_decimal::RoundingStrategy::ToPositiveInfinity,
    });
    DecimalNumber { mantissa: y.mantissa(), scale: y.scale() }
}

} // verus!
