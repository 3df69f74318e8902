//! Non-negative rational numbers as numerator/denominator pairs.
//!
//! The executable type `Ratio` holds a `u64` numerator and denominator;
//! its mathematical model `RatModel` is the same pair over `int`, with
//! value equality and order given by cross-multiplication. No
//! normalisation is performed: two ratios are compared by value, never
//! by representation.

use vstd::prelude::*;

verus! {

/// Mathematical model of a ratio: an unbounded numerator/denominator pair.
/// The value denoted is `num / den`, meaningful whenever `den > 0`.
pub ghost struct RatModel {
    pub num: int,
    pub den: int,
}

/// A model denotes a positive value with a positive denominator.
pub open spec fn rat_pos(a: RatModel) -> bool {
    a.num > 0 && a.den > 0
}

/// The ratio of an integer: `n / 1`.
pub open spec fn rat_of(n: int) -> RatModel {
    RatModel { num: n, den: 1 }
}

/// Product of two ratios, componentwise.
pub open spec fn rat_mul(a: RatModel, b: RatModel) -> RatModel {
    RatModel { num: a.num * b.num, den: a.den * b.den }
}

/// Quotient of two ratios: multiply by the reciprocal.
pub open spec fn rat_div(a: RatModel, b: RatModel) -> RatModel {
    RatModel { num: a.num * b.den, den: a.den * b.num }
}

/// Value equality by cross-multiplication: `a.num/a.den == b.num/b.den`.
/// Meaningful whenever both denominators are positive.
pub open spec fn rat_eqv(a: RatModel, b: RatModel) -> bool {
    a.num * b.den == b.num * a.den
}

/// Strict value order by cross-multiplication, for positive denominators.
pub open spec fn rat_lt(a: RatModel, b: RatModel) -> bool {
    a.num * b.den < b.num * a.den
}

/// Non-strict value order by cross-multiplication, for positive denominators.
pub open spec fn rat_le(a: RatModel, b: RatModel) -> bool {
    a.num * b.den <= b.num * a.den
}

/// An executable non-negative rational: `num / den`.
#[derive(Clone, Copy, Debug, PartialEq, Eq, Structural)]
pub struct Ratio {
    pub num: u64,
    pub den: u64,
}

impl View for Ratio {
    type V = RatModel;

    open spec fn view(&self) -> RatModel {
        RatModel { num: self.num as int, den: self.den as int }
    }
}

impl Ratio {
    /// A ratio is well formed when it denotes a finite value: the
    /// denominator is strictly positive.
    pub open spec fn wf(self) -> bool {
        self.den >= 1
    }

    /// A positive ratio: well formed with a strictly positive numerator.
    pub open spec fn pos(self) -> bool {
        self.num >= 1 && self.den >= 1
    }

    /// Build the ratio `num / den`.
    pub fn new(num: u64, den: u64) -> (r: Ratio)
        requires
            den >= 1,
        ensures
            r.wf(),
            r@ == (RatModel { num: num as int, den: den as int }),
    {
        Ratio { num, den }
    }
}

} // verus!
