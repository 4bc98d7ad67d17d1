//! Exact fractions, for error rates and for the thresholds they are held
//! against.

use vstd::prelude::*;

verus! {

/// A fraction of two counts, such as failures over calls. A fraction with a
/// zero denominator stands for zero: the error rate of no calls at all.
#[derive(Debug, Clone, Copy, PartialEq, Eq, Structural)]
pub struct Ratio {
    /// The count above the line.
    pub num: u64,
    /// The count below the line.
    pub den: u64,
}

impl Ratio {
    /// Whether the fraction stands for zero.
    pub open spec fn is_zero(self) -> bool {
        self.num == 0 || self.den == 0
    }

    /// Whether this fraction is at least as large as `other`, compared as
    /// exact rational numbers.
    pub open spec fn at_least(self, other: Ratio) -> bool {
        other.is_zero() || (!self.is_zero() && self.num * other.den >= other.num * self.den)
    }

    /// Whether this fraction is at most as large as `other`.
    pub open spec fn at_most(self, other: Ratio) -> bool {
        other.at_least(self)
    }

    /// The fraction `num / den`.
    pub fn new(num: u64, den: u64) -> (ratio: Ratio)
        ensures
            ratio == (Ratio { num, den }),
    {
        Ratio { num, den }
    }

    /// The fraction zero.
    pub fn zero() -> (ratio: Ratio)
        ensures
            ratio == (Ratio { num: 0, den: 1 }),
    {
        Ratio { num: 0, den: 1 }
    }

    /// Whether this fraction is at least as large as `other`.
    pub fn ge(&self, other: &Ratio) -> (holds: bool)
        ensures
            holds == self.at_least(*other),
    {
        if other.num == 0 || other.den == 0 {
            return true;
        }
        if self.num == 0 || self.den == 0 {
            return false;
        }
        proof {
            lemma_product_fits(self.num, other.den);
            lemma_product_fits(other.num, self.den);
        }
        let left: u128 = (self.num as u128) * (other.den as u128);
        let right: u128 = (other.num as u128) * (self.den as u128);
        left >= right
    }

    /// Whether this fraction is at most as large as `other`.
    pub fn le(&self, other: &Ratio) -> (holds: bool)
        ensures
            holds == self.at_most(*other),
    {
        other.ge(self)
    }
}

/// The product of two 64-bit counts fits in 128 bits.
proof fn lemma_product_fits(a: u64, b: u64)
    ensures
        0 <= a * b <= u128::MAX,
{
    assert(0 <= a * b <= 0xffff_ffff_ffff_ffff * 0xffff_ffff_ffff_ffff) by (nonlinear_arith)
        requires
            0 <= a <= 0xffff_ffff_ffff_ffff,
            0 <= b <= 0xffff_ffff_ffff_ffff,
    ;
}

/// Comparing fractions is comparing the rational numbers they stand for:
/// where neither denominator is zero, `a` is at least `b` exactly when
/// `a.num / a.den >= b.num / b.den`, written without division.
pub proof fn lemma_at_least_is_rational_order(a: Ratio, b: Ratio)
    requires
        a.den > 0,
        b.den > 0,
    ensures
        a.at_least(b) <==> a.num * b.den >= b.num * a.den,
{
    if b.num == 0 {
        assert(b.num * a.den == 0) by (nonlinear_arith)
            requires
                b.num == 0,
        ;
        assert(a.num * b.den >= 0) by (nonlinear_arith)
            requires
                a.num >= 0,
                b.den >= 0,
        ;
    } else if a.num == 0 {
        assert(a.num * b.den == 0) by (nonlinear_arith)
            requires
                a.num == 0,
        ;
        assert(b.num * a.den > 0) by (nonlinear_arith)
            requires
                b.num > 0,
                a.den > 0,
        ;
    }
}

/// Every fraction is at least as large as itself, and of any two fractions
/// one is at least as large as the other.
pub proof fn lemma_at_least_is_total(a: Ratio, b: Ratio)
    ensures
        a.at_least(a),
        a.at_least(b) || b.at_least(a),
{
}

} // verus!
