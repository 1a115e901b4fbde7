//! Points and vectors of the plane.
//!
//! `Point2` and `Vector2` are made of fixed-point scalars: a camera's focus
//! is one, and so is a point of the world that it is asked about.
//! `ExactPoint2` and `ExactVector2` are made of fractions: they are what the
//! camera answers, without rounding.

use vstd::prelude::*;
use vstd::arithmetic::div_mod::{lemma_div_pos_is_pos, lemma_fundamental_div_mod};
use vstd::arithmetic::mul::{
    lemma_mul_inequality, lemma_mul_is_commutative, lemma_mul_nonnegative,
    lemma_mul_unary_negation,
};
use crate::ints::{
    divides, gcd, greatest_common_divisor, lemma_gcd3_divides, lemma_gcd3_of_quotients,
};
use crate::linalg::RealVec2;
use crate::reals::{lemma_cast_mul, lemma_div_scale, lemma_mul_comm};
use crate::rational::Rational;
use crate::scalar::Scalar;

verus! {

#[derive(Clone, Copy, Debug, PartialEq, Eq, Structural)]
pub struct Point2 {
    pub x: Scalar,
    pub y: Scalar,
}

#[derive(Clone, Copy, Debug, PartialEq, Eq, Structural)]
pub struct Vector2 {
    pub x: Scalar,
    pub y: Scalar,
}

/// The point `(x / w, y / w)`: two fractions with one denominator.
#[derive(Clone, Copy, Debug)]
pub struct ExactPoint2 {
    pub x: i128,
    pub y: i128,
    pub w: i128,
}

#[derive(Clone, Copy, Debug)]
pub struct ExactVector2 {
    pub x: Rational,
    pub y: Rational,
}

impl Point2 {
    pub open spec fn view(&self) -> RealVec2 {
        RealVec2 { x: self.x@, y: self.y@ }
    }

    pub fn new(x: Scalar, y: Scalar) -> (p: Point2)
        ensures
            p.x == x,
            p.y == y,
    {
        Point2 { x, y }
    }

    pub fn origin() -> (p: Point2)
        ensures
            p.x.raw == 0,
            p.y.raw == 0,
            p@ == (RealVec2 { x: 0real, y: 0real }),
    {
        Point2 { x: Scalar::zero(), y: Scalar::zero() }
    }

    /// The point moved by `v`, where its coordinates can be held.
    pub fn plus(self, v: Vector2) -> (p: Point2)
        requires
            Scalar::fits(self.x.raw + v.x.raw),
            Scalar::fits(self.y.raw + v.y.raw),
        ensures
            p.x.raw == self.x.raw + v.x.raw,
            p.y.raw == self.y.raw + v.y.raw,
            p@ == (RealVec2 { x: self@.x + v@.x, y: self@.y + v@.y }),
    {
        Point2 { x: self.x.plus(v.x), y: self.y.plus(v.y) }
    }
}

impl Vector2 {
    pub open spec fn view(&self) -> RealVec2 {
        RealVec2 { x: self.x@, y: self.y@ }
    }

    pub fn new(x: Scalar, y: Scalar) -> (v: Vector2)
        ensures
            v.x == x,
            v.y == y,
    {
        Vector2 { x, y }
    }
}

impl ExactPoint2 {
    /// A point is well formed when its denominator is positive.
    pub open spec fn wf(&self) -> bool {
        self.w > 0
    }

    pub open spec fn view(&self) -> RealVec2 {
        RealVec2 { x: (self.x as real) / (self.w as real), y: (self.y as real) / (self.w as real) }
    }

    /// A point is bounded when its three parts are at most 2^48 in size:
    /// small enough for the camera to unproject it inside `i128`.
    pub open spec fn bounded(&self) -> bool {
        &&& -0x1_0000_0000_0000 <= self.x <= 0x1_0000_0000_0000
        &&& -0x1_0000_0000_0000 <= self.y <= 0x1_0000_0000_0000
        &&& 0 < self.w <= 0x1_0000_0000_0000
    }

    /// Whether the point is well formed and bounded.
    pub fn is_bounded(&self) -> (b: bool)
        ensures
            b == self.bounded(),
    {
        -0x1_0000_0000_0000 <= self.x && self.x <= 0x1_0000_0000_0000 && -0x1_0000_0000_0000
            <= self.y && self.y <= 0x1_0000_0000_0000 && 0 < self.w && self.w
            <= 0x1_0000_0000_0000
    }

    /// The greatest number that divides all three parts of the point.
    pub open spec fn common_divisor(&self) -> nat {
        gcd(gcd(magnitude(self.x as int), magnitude(self.y as int)), magnitude(self.w as int))
    }

    /// The same point in lowest terms: its three parts divided by their
    /// greatest common divisor.
    pub fn reduce(self) -> (r: ExactPoint2)
        requires
            self.wf(),
        ensures
            r.wf(),
            r@ == self@,
            r.x * self.common_divisor() == self.x,
            r.y * self.common_divisor() == self.y,
            r.w * self.common_divisor() == self.w,
            r.common_divisor() == 1,
    {
        let mx: u128 = magnitude_of(self.x);
        let my: u128 = magnitude_of(self.y);
        let mw: u128 = self.w as u128;
        let g: u128 = greatest_common_divisor(greatest_common_divisor(mx, my), mw);
        proof {
            lemma_gcd3_divides(mx as nat, my as nat, mw as nat);
        }
        let x = divide(self.x, g);
        let y = divide(self.y, g);
        let w = divide(self.w, g);
        proof {
            let gr = g as real;
            lemma_cast_mul(x as int, g as int);
            lemma_cast_mul(y as int, g as int);
            lemma_cast_mul(w as int, g as int);
            assert(w > 0) by {
                if w <= 0 {
                    lemma_mul_inequality(w as int, 0, g as int);
                }
            }
            lemma_div_scale(x as real, w as real, gr);
            lemma_div_scale(y as real, w as real, gr);
            lemma_mul_is_commutative(x as int, g as int);
            lemma_mul_is_commutative(y as int, g as int);
            lemma_mul_is_commutative(w as int, g as int);
            lemma_mul_comm(x as real, gr);
            lemma_mul_comm(y as real, gr);
            lemma_mul_comm(w as real, gr);
            lemma_magnitude_of_multiple(x as int, g as nat);
            lemma_magnitude_of_multiple(y as int, g as nat);
            lemma_magnitude_of_multiple(w as int, g as nat);
            lemma_gcd3_of_quotients(
                g as nat,
                magnitude(x as int),
                magnitude(y as int),
                magnitude(w as int),
            );
        }
        ExactPoint2 { x, y, w }
    }

    /// The same point, made of fractions.
    pub fn from_point(p: Point2) -> (e: ExactPoint2)
        ensures
            e.bounded(),
            e@ == p@,
            e.x == p.x.raw,
            e.y == p.y.raw,
            e.w == 10000,
    {
        ExactPoint2 { x: p.x.raw as i128, y: p.y.raw as i128, w: 10000 }
    }
}

/// The size of a number, whatever its sign.
pub open spec fn magnitude(x: int) -> nat {
    if x < 0 {
        (-x) as nat
    } else {
        x as nat
    }
}

/// The size of a multiple is the multiple of the size.
proof fn lemma_magnitude_of_multiple(x: int, g: nat)
    ensures
        magnitude(x * g) == g * magnitude(x),
{
    lemma_mul_is_commutative(x, g as int);
    lemma_mul_unary_negation(x, g as int);
    lemma_mul_is_commutative(-x, g as int);
    if x < 0 {
        lemma_mul_nonnegative(-x, g as int);
    } else {
        lemma_mul_nonnegative(x, g as int);
    }
}

fn magnitude_of(x: i128) -> (m: u128)
    ensures
        m == magnitude(x as int),
{
    if x < 0 {
        (-(x + 1)) as u128 + 1
    } else {
        x as u128
    }
}

/// A number divided by one of the divisors of its size.
fn divide(x: i128, d: u128) -> (q: i128)
    requires
        divides(d as nat, magnitude(x as int)),
    ensures
        q * d == x,
{
    let m: u128 = magnitude_of(x);
    let n: u128 = m / d;
    proof {
        lemma_fundamental_div_mod(m as int, d as int);
        lemma_mul_is_commutative(d as int, n as int);
        lemma_div_pos_is_pos(m as int, d as int);
        assert(n <= m) by {
            if n > m {
                lemma_mul_inequality(m as int + 1, n as int, d as int);
                lemma_mul_inequality(1, d as int, m as int + 1);
                lemma_mul_is_commutative(d as int, m as int + 1);
            }
        }
    }
    if x < 0 {
        proof {
            lemma_mul_unary_negation(n as int, d as int);
            assert(n >= 1) by {
                if n == 0 {
                    assert(0 * d == 0) by (nonlinear_arith);
                }
            }
        }
        -((n - 1) as i128) - 1
    } else {
        n as i128
    }
}

impl ExactVector2 {
    pub open spec fn wf(&self) -> bool {
        self.x.wf() && self.y.wf()
    }

    pub open spec fn view(&self) -> RealVec2 {
        RealVec2 { x: self.x@, y: self.y@ }
    }
}

} // verus!
