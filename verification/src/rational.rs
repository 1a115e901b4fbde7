//! Exact rational numbers: what the camera computes.

use vstd::prelude::*;
use crate::reals::{lemma_div_cross, lemma_div_is, lemma_mul_neg};

verus! {

/// A fraction of two integers. It is not kept in lowest terms: two fractions
/// are the same number when their views are equal.
#[derive(Clone, Copy, Debug)]
pub struct Rational {
    pub num: i128,
    pub den: i128,
}

impl Rational {
    /// A fraction is well formed when its denominator is positive.
    pub open spec fn wf(&self) -> bool {
        self.den > 0
    }

    /// The number that this fraction stands for.
    pub open spec fn view(&self) -> real {
        (self.num as real) / (self.den as real)
    }

    /// The fraction `num / den`, with the sign moved to the numerator.
    pub fn new(num: i128, den: i128) -> (r: Rational)
        requires
            den != 0,
            num > i128::MIN,
            den > i128::MIN,
        ensures
            r.wf(),
            r@ == (num as real) / (den as real),
    {
        if den < 0 {
            proof {
                lemma_mul_neg(num as real, den as real);
                lemma_div_cross((-num) as real, (-den) as real, num as real, den as real);
            }
            Rational { num: -num, den: -den }
        } else {
            Rational { num, den }
        }
    }

    /// The whole number `n` as a fraction.
    pub fn from_int(n: i64) -> (r: Rational)
        ensures
            r.wf(),
            r@ == n as real,
            r.num == n,
            r.den == 1,
    {
        proof {
            lemma_div_is(n as real, 1real, n as real);
        }
        Rational { num: n as i128, den: 1 }
    }
}

} // verus!
