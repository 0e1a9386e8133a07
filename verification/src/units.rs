//! Exact arithmetic for turning raw counts into physical units.

use vstd::prelude::*;

verus! {

/// The largest magnitude of a numerator or denominator that [`Ratio`]
/// computes with: the product of two of them fits in 64 bits.
pub const RATIO_LIMIT: i64 = 0x7fff_ffff;

/// A rational number.
pub struct Fraction {
    pub numerator: int,
    pub denominator: int,
}

impl Fraction {
    /// The whole number `count`.
    pub open spec fn whole(count: int) -> Fraction {
        Fraction { numerator: count, denominator: 1 }
    }

    /// The product of two numbers.
    pub open spec fn times(self, other: Fraction) -> Fraction {
        Fraction {
            numerator: self.numerator * other.numerator,
            denominator: self.denominator * other.denominator,
        }
    }

    /// The quotient of two numbers.
    pub open spec fn over(self, divisor: Fraction) -> Fraction {
        Fraction {
            numerator: self.numerator * divisor.denominator,
            denominator: self.denominator * divisor.numerator,
        }
    }
}

/// Standard gravity in metres per second squared: 9.81.
pub open spec fn gravity() -> Fraction {
    Fraction { numerator: 981, denominator: 100 }
}

/// The number `numerator / denominator`, kept exactly. It is not reduced:
/// two ratios of the same number may differ in both fields.
#[derive(Clone, Copy, Debug, PartialEq, Eq, Structural)]
pub struct Ratio {
    pub numerator: i64,
    pub denominator: i64,
}

impl View for Ratio {
    type V = Fraction;

    open spec fn view(&self) -> Fraction {
        Fraction { numerator: self.numerator as int, denominator: self.denominator as int }
    }
}

impl Ratio {
    /// Whether this is a number and small enough to compute with.
    pub open spec fn valid(&self) -> bool {
        &&& 0 < self.denominator <= RATIO_LIMIT
        &&& -RATIO_LIMIT <= self.numerator <= RATIO_LIMIT
    }

    /// The whole number `count`.
    pub fn whole(count: i16) -> (ratio: Ratio)
        ensures
            ratio@ == Fraction::whole(count as int),
            ratio.valid(),
    {
        Ratio { numerator: count as i64, denominator: 1 }
    }

    /// The product of two numbers, fraction times fraction.
    pub fn times(&self, other: &Ratio) -> (product: Ratio)
        requires
            self.valid(),
            other.valid(),
        ensures
            product@ == self@.times(other@),
            product.denominator > 0,
    {
        assert(-RATIO_LIMIT * RATIO_LIMIT <= self.numerator * other.numerator <= RATIO_LIMIT
            * RATIO_LIMIT) by (nonlinear_arith)
            requires
                -RATIO_LIMIT <= self.numerator <= RATIO_LIMIT,
                -RATIO_LIMIT <= other.numerator <= RATIO_LIMIT,
        ;
        assert(0 < self.denominator * other.denominator <= RATIO_LIMIT * RATIO_LIMIT)
            by (nonlinear_arith)
            requires
                0 < self.denominator <= RATIO_LIMIT,
                0 < other.denominator <= RATIO_LIMIT,
        ;
        Ratio {
            numerator: self.numerator * other.numerator,
            denominator: self.denominator * other.denominator,
        }
    }

    /// The quotient of a number by a positive number.
    pub fn over(&self, divisor: &Ratio) -> (quotient: Ratio)
        requires
            self.valid(),
            divisor.valid(),
            divisor.numerator > 0,
        ensures
            quotient@ == self@.over(divisor@),
            quotient.denominator > 0,
    {
        let inverse = Ratio { numerator: divisor.denominator, denominator: divisor.numerator };
        self.times(&inverse)
    }
}

/// Standard gravity in metres per second squared: 9.81.
pub fn standard_gravity() -> (g: Ratio)
    ensures
        g@ == gravity(),
        g.valid(),
{
    Ratio { numerator: 981, denominator: 100 }
}

} // verus!
