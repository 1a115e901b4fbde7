//! Angles held by the tangent of their half.
//!
//! An angle `a` is the pair `(p, q)` with `tan(a / 2) = p / q`. Its cosine and
//! sine are then the fractions `(q*q - p*p) / (q*q + p*p)` and
//! `2*p*q / (q*q + p*p)`:
//! rational numbers that lie on the unit circle exactly, whatever `p` and `q`
//! are. A half turn is `(1, 0)`.

use vstd::prelude::*;
use crate::reals::{
    lemma_cast_mul, lemma_div_mul, lemma_mul_cancel, lemma_mul_distributes, lemma_mul_nonzero,
    lemma_mul_pair,
};

verus! {

#[derive(Clone, Copy, Debug, PartialEq, Eq, Structural)]
pub struct Angle {
    pub p: i16,
    pub q: i16,
}

impl Angle {
    /// Every pair but `(0, 0)` is an angle.
    pub open spec fn wf(&self) -> bool {
        self.p != 0 || self.q != 0
    }

    /// The numerator of the cosine.
    pub open spec fn cos_num(&self) -> int {
        self.q * self.q - self.p * self.p
    }

    /// The numerator of the sine.
    pub open spec fn sin_num(&self) -> int {
        2 * (self.p * self.q)
    }

    /// The denominator of both the cosine and the sine.
    pub open spec fn hyp(&self) -> int {
        self.q * self.q + self.p * self.p
    }

    pub open spec fn cos(&self) -> real {
        (self.cos_num() as real) / (self.hyp() as real)
    }

    pub open spec fn sin(&self) -> real {
        (self.sin_num() as real) / (self.hyp() as real)
    }

    /// The tangent of half the angle. It is defined where `q` is not zero.
    pub open spec fn tan_half(&self) -> real {
        (self.p as real) / (self.q as real)
    }

    /// The angle with `tan(a / 2) = p / q`.
    pub fn new(p: i16, q: i16) -> (a: Angle)
        ensures
            a.p == p,
            a.q == q,
    {
        Angle { p, q }
    }

    /// The angle zero.
    pub fn zero() -> (a: Angle)
        ensures
            a.p == 0,
            a.q == 1,
            a.wf(),
    {
        Angle { p: 0, q: 1 }
    }

    /// The numerators of the cosine and of the sine, and their common
    /// denominator.
    pub fn parts(&self) -> (r: (i64, i64, i64))
        ensures
            r.0 == self.cos_num(),
            r.1 == self.sin_num(),
            r.2 == self.hyp(),
            -0x4000_0000 <= r.0 <= 0x4000_0000,
            -0x8000_0000 <= r.1 <= 0x8000_0000,
            0 <= r.2 <= 0x8000_0000,
            self.wf() ==> r.2 > 0,
    {
        let p: i64 = self.p as i64;
        let q: i64 = self.q as i64;
        proof {
            lemma_square_bounds(p as int);
            lemma_square_bounds(q as int);
            lemma_product_bounds(p as int, q as int);
        }
        let pp: i64 = p * p;
        let qq: i64 = q * q;
        let pq: i64 = p * q;
        (qq - pp, 2 * pq, qq + pp)
    }
}

proof fn lemma_square_bounds(x: int)
    requires
        -0x8000 <= x <= 0x8000,
    ensures
        0 <= x * x <= 0x4000_0000,
        x != 0 ==> x * x > 0,
{
    assert(0 <= x * x <= 0x4000_0000 && (x != 0 ==> x * x > 0)) by (nonlinear_arith)
        requires
            -0x8000 <= x <= 0x8000,
    ;
}

proof fn lemma_product_bounds(x: int, y: int)
    requires
        -0x8000 <= x <= 0x8000,
        -0x8000 <= y <= 0x8000,
    ensures
        -0x4000_0000 <= x * y <= 0x4000_0000,
{
    assert(-0x4000_0000 <= x * y <= 0x4000_0000) by (nonlinear_arith)
        requires
            -0x8000 <= x <= 0x8000,
            -0x8000 <= y <= 0x8000,
    ;
}

/// The cosine and the sine of an angle lie on the unit circle.
pub proof fn angle_on_unit_circle(a: Angle)
    requires
        a.wf(),
    ensures
        a.hyp() > 0,
        a.cos() * a.cos() + a.sin() * a.sin() == 1real,
{
    let p = a.p as int;
    let q = a.q as int;
    lemma_square_bounds(p);
    lemma_square_bounds(q);
    let c = a.cos_num();
    let s = a.sin_num();
    let h = a.hyp();
    assert(c * c + s * s == h * h) by (nonlinear_arith)
        requires
            c == q * q - p * p,
            s == 2 * (p * q),
            h == q * q + p * p,
    ;
    let cr = c as real;
    let sr = s as real;
    let hr = h as real;
    lemma_cast_mul(c, c);
    lemma_cast_mul(s, s);
    lemma_cast_mul(h, h);
    assert(cr * cr + sr * sr == hr * hr);
    // ((cr / hr)^2 + (sr / hr)^2) * hr^2 == hr^2
    let x = cr / hr;
    let y = sr / hr;
    lemma_div_mul(cr, hr);
    lemma_div_mul(sr, hr);
    lemma_mul_pair(x, x, hr, hr);
    lemma_mul_pair(y, y, hr, hr);
    lemma_mul_distributes(x * x, y * y, hr * hr);
    lemma_mul_nonzero(hr, hr);
    lemma_mul_cancel(x * x + y * y, hr * hr);
}

} // verus!
