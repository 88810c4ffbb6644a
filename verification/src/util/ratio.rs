//! The ratio of two decimal numbers.

use crate::util::decimal::decimal_product;
use crate::util::decimal::decimal_quotient;
use crate::util::decimal::decimal_remainder;
use crate::util::decimal::parts;
use crate::util::decimal::decimal_rounded;
use crate::util::decimal::DecimalNumber;
use crate::util::decimal::RoundingStrategy;
use vstd::prelude::*;

verus! {

/// How many divisions the search for a common divisor makes at most.
pub const GCD_STEPS: u32 = 1024;

/// The greatest common divisor that Euclid's algorithm finds for `a` and `b`
/// within the given number of divisions: `a` where `b` is zero, and otherwise
/// what it finds for `b` and the remainder of `a` by `b`. `None` where the
/// divisions do not suffice or a remainder does not fit.
pub open spec fn gcd_within(a: (int, int), b: (int, int), steps: nat) -> Option<(int, int)>
    decreases steps,
{
    if b.0 == 0 {
        Some(a)
    } else if steps == 0 {
        None
    } else {
        match decimal_remainder(a.0, a.1, b.0, b.1) {
            Some(r) => gcd_within(b, r, (steps - 1) as nat),
            None => None,
        }
    }
}

/// A numerator over a denominator that is not zero.
#[derive(Debug, Clone, Copy, PartialEq, Eq, Hash)]
pub struct Ratio {
    numerator: DecimalNumber,
    denominator: DecimalNumber,
}

impl Ratio {
    /// The numerator.
    pub closed spec fn numerator(self) -> DecimalNumber {
        self.numerator
    }

    /// The denominator.
    pub closed spec fn denominator(self) -> DecimalNumber {
        self.denominator
    }

    #[verifier::type_invariant]
    spec fn denominator_is_not_zero(self) -> bool {
        self.denominator.mantissa() != 0
    }

    /// The ratio of the given numbers, where there are both and the
    /// denominator is not zero.
    pub open spec fn of(numerator: Option<DecimalNumber>, denominator: Option<DecimalNumber>, r: Option<
        Ratio,
    >) -> bool {
        match (numerator, denominator) {
            (Some(n), Some(d)) => if d.mantissa() == 0 {
                r is None
            } else {
                r is Some && r->Some_0.numerator() == n && r->Some_0.denominator() == d
            },
            _ => r is None,
        }
    }

    /// The ratio of two whole numbers, or `None` for a denominator of zero.
    pub fn new_i64(numerator: i64, denominator: i64) -> (r: Option<Self>)
        ensures
            r is Some == (denominator != 0),
            r matches Some(ratio) ==> ratio.numerator().mantissa() == numerator
                && ratio.numerator().scale() == 0 && ratio.denominator().mantissa() == denominator
                && ratio.denominator().scale() == 0,
    {
        Self::new(DecimalNumber::from_i64(numerator), DecimalNumber::from_i64(denominator))
    }

    /// The ratio of two numbers, or `None` for a denominator of zero.
    pub fn new(numerator: DecimalNumber, denominator: DecimalNumber) -> (r: Option<Self>)
        ensures
            Self::of(Some(numerator), Some(denominator), r),
    {
        if denominator.is_zero() {
            None
        } else {
            Some(Self { numerator, denominator })
        }
    }

    /// The ratio of the given numbers, where there are both and the
    /// denominator is not zero.
    pub fn new_checked(numerator: Option<DecimalNumber>, denominator: Option<DecimalNumber>) -> (r:
        Option<Self>)
        ensures
            Self::of(numerator, denominator, r),
    {
        match (numerator, denominator) {
            (Some(n), Some(d)) => Self::new(n, d),
            _ => None,
        }
    }

    /// The quotient, rounded to `scale` places where a strategy is given.
    pub open spec fn rounded(
        quotient: Option<(int, int)>,
        scale: int,
        rounding_strategy: Option<RoundingStrategy>,
    ) -> Option<(int, int)> {
        match (quotient, rounding_strategy) {
            (Some(q), Some(s)) => Some(decimal_rounded(q.0, q.1, scale, s.number())),
            (Some(q), None) => Some(q),
            (None, _) => None,
        }
    }

    /// The value of the ratio as one decimal number: the numerator divided
    /// by the denominator, rounded to `scale` places where a strategy is
    /// given. `None` where the quotient does not fit.
    pub fn decimal_value(&self, scale: u32, rounding_strategy: Option<RoundingStrategy>) -> (r:
        Option<DecimalNumber>)
        ensures
            Self::rounded(
                decimal_quotient(
                    self.numerator().mantissa(),
                    self.numerator().scale(),
                    self.denominator().mantissa(),
                    self.denominator().scale(),
                ),
                scale as int,
                rounding_strategy,
            ) == parts(r),
    {
        let quotient = self.numerator.checked_div(self.denominator);
        match (quotient, rounding_strategy) {
            (Some(q), Some(s)) => Some(q.round_dp_with_strategy(scale, s)),
            (Some(q), None) => Some(q),
            (None, _) => None,
        }
    }

    /// The product of the two ratios: numerator times numerator over
    /// denominator times denominator. `None` where a product does not fit or
    /// the product of the denominators is zero.
    pub fn times(self, multiplier: Self) -> (r: Option<Self>)
        ensures
            exists|n: Option<DecimalNumber>, d: Option<DecimalNumber>|
                #![trigger Self::of(n, d, r)]
                {
                    &&& parts(n) == decimal_product(
                        self.numerator().mantissa(),
                        self.numerator().scale(),
                        multiplier.numerator().mantissa(),
                        multiplier.numerator().scale(),
                    )
                    &&& parts(d) == decimal_product(
                        self.denominator().mantissa(),
                        self.denominator().scale(),
                        multiplier.denominator().mantissa(),
                        multiplier.denominator().scale(),
                    )
                    &&& Self::of(n, d, r)
                },
    {
        let n = self.numerator.checked_mul(multiplier.numerator);
        let d = self.denominator.checked_mul(multiplier.denominator);
        let r = Self::new_checked(n, d);
        assert(Self::of(n, d, r));
        r
    }

    /// The ratio with its numerator multiplied by `multiplier`. `None` where
    /// the product does not fit.
    pub fn times_by_big_decimal(self, multiplier: DecimalNumber) -> (r: Option<Self>)
        ensures
            exists|n: Option<DecimalNumber>|
                #![trigger Self::of(n, Some(self.denominator()), r)]
                {
                    &&& parts(n) == decimal_product(
                        self.numerator().mantissa(),
                        self.numerator().scale(),
                        multiplier.mantissa(),
                        multiplier.scale(),
                    )
                    &&& Self::of(n, Some(self.denominator()), r)
                },
    {
        let n = self.numerator.checked_mul(multiplier);
        let r = Self::new_checked(n, Some(self.denominator));
        assert(Self::of(n, Some(self.denominator()), r));
        r
    }

    /// The greatest common divisor of the two numbers by Euclid's algorithm,
    /// within [`GCD_STEPS`] divisions.
    pub fn gcd(numerator: DecimalNumber, denominator: DecimalNumber) -> (r: Option<DecimalNumber>)
        ensures
            parts(r) == gcd_within(
                (numerator.mantissa(), numerator.scale()),
                (denominator.mantissa(), denominator.scale()),
                GCD_STEPS as nat,
            ),
    {
        let mut a = numerator;
        let mut b = denominator;
        let mut steps: u32 = GCD_STEPS;
        while !b.is_zero() && steps > 0
            invariant
                gcd_within(
                    (a.mantissa(), a.scale()),
                    (b.mantissa(), b.scale()),
                    steps as nat,
                ) == gcd_within(
                    (numerator.mantissa(), numerator.scale()),
                    (denominator.mantissa(), denominator.scale()),
                    GCD_STEPS as nat,
                ),
            decreases steps,
        {
            match a.checked_rem(b) {
                Some(remainder) => {
                    a = b;
                    b = remainder;
                    steps = steps - 1;
                },
                None => {
                    return None;
                },
            }
        }
        if b.is_zero() {
            Some(a)
        } else {
            None
        }
    }

    /// The ratio with numerator and denominator divided by the given common
    /// divisor, where there is one.
    pub fn divided_by_common(self, divisor: Option<DecimalNumber>) -> (r: Option<Self>)
        ensures
            divisor is None ==> r is None,
            divisor matches Some(g) ==> exists|n: Option<DecimalNumber>, d: Option<DecimalNumber>|
                #![trigger Self::of(n, d, r)]
                {
                    &&& parts(n) == decimal_quotient(
                        self.numerator().mantissa(),
                        self.numerator().scale(),
                        g.mantissa(),
                        g.scale(),
                    )
                    &&& parts(d) == decimal_quotient(
                        self.denominator().mantissa(),
                        self.denominator().scale(),
                        g.mantissa(),
                        g.scale(),
                    )
                    &&& Self::of(n, d, r)
                },
    {
        match divisor {
            Some(g) => {
                let n = self.numerator.checked_div(g);
                let d = self.denominator.checked_div(g);
                let r = Self::new_checked(n, d);
                assert(Self::of(n, d, r));
                r
            },
            None => None,
        }
    }

    /// The ratio in lowest terms: numerator and denominator divided by
    /// their greatest common divisor. `None` where [`Ratio::gcd`] finds none
    /// or a quotient does not fit.
    pub fn reduce(self) -> (r: Option<Self>)
        ensures
            exists|g: Option<DecimalNumber>|
                #![trigger parts(g)]
                {
                    &&& parts(g) == gcd_within(
                        (self.numerator().mantissa(), self.numerator().scale()),
                        (self.denominator().mantissa(), self.denominator().scale()),
                        GCD_STEPS as nat,
                    )
                    &&& g is None ==> r is None
                    &&& g matches Some(c) ==> exists|
                        n: Option<DecimalNumber>,
                        d: Option<DecimalNumber>,
                    |
                        #![trigger Self::of(n, d, r)]
                        {
                            &&& parts(n) == decimal_quotient(
                                self.numerator().mantissa(),
                                self.numerator().scale(),
                                c.mantissa(),
                                c.scale(),
                            )
                            &&& parts(d) == decimal_quotient(
                                self.denominator().mantissa(),
                                self.denominator().scale(),
                                c.mantissa(),
                                c.scale(),
                            )
                            &&& Self::of(n, d, r)
                        }
                },
    {
        let g = Self::gcd(self.numerator, self.denominator);
        let r = self.divided_by_common(g);
        assert(parts(g) == gcd_within(
            (self.numerator().mantissa(), self.numerator().scale()),
            (self.denominator().mantissa(), self.denominator().scale()),
            GCD_STEPS as nat,
        ));
        r
    }

    /// The numerator.
    pub fn to_numerator(&self) -> (r: DecimalNumber)
        ensures
            r == self.numerator(),
    {
        self.numerator
    }

    /// The denominator, which is not zero.
    pub fn to_denominator(&self) -> (r: DecimalNumber)
        ensures
            r == self.denominator(),
            r.mantissa() != 0,
    {
        proof {
            use_type_invariant(self);
        }
        self.denominator
    }
}

} // verus!
