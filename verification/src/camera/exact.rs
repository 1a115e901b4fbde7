//! How the camera's integer arithmetic stands for the real arithmetic of its
//! model: each lemma says that a fraction of integers is the value of a
//! formula over the views of the scalars that the integers come from.

use vstd::prelude::*;
use crate::angle::Angle;
use crate::camera::model::{frustum_scale, frustum_unscale, turn_x, turn_y};
use crate::camera::projection::{fov_tan, lemma_scale_entry, near};
use crate::reals::{
    lemma_cast_mul, lemma_div_cross, lemma_div_is, lemma_div_mul, lemma_mul_assoc,
    lemma_mul_comm, lemma_mul_distributes, lemma_mul_nonzero, lemma_mul_pair,
};

verus! {

/// A vector of fractions with the denominator `w`, turned by an angle,
/// cleared of its denominators.
pub proof fn lemma_turn_product(a: int, b: int, h: int, x: int, y: int, w: int)
    requires
        h != 0,
        w != 0,
    ensures
        ({
            let c = (a as real) / (h as real);
            let s = (b as real) / (h as real);
            let xs = (x as real) / (w as real);
            let ys = (y as real) / (w as real);
            let m = (h as real) * (w as real);
            &&& m != 0real
            &&& turn_x(c, s, xs, ys) * m == (a * x - b * y) as real
            &&& turn_y(c, s, xs, ys) * m == (b * x + a * y) as real
        }),
{
    let ar = a as real;
    let br = b as real;
    let hr = h as real;
    let wr = w as real;
    let c = ar / hr;
    let s = br / hr;
    let xs = (x as real) / wr;
    let ys = (y as real) / wr;
    let m = hr * wr;
    lemma_mul_nonzero(hr, wr);
    lemma_div_mul(ar, hr);
    lemma_div_mul(br, hr);
    lemma_div_mul(x as real, wr);
    lemma_div_mul(y as real, wr);
    lemma_cast_mul(a, x);
    lemma_cast_mul(b, y);
    lemma_cast_mul(b, x);
    lemma_cast_mul(a, y);
    lemma_mul_distributes(c * xs, s * ys, m);
    lemma_mul_pair(c, xs, hr, wr);
    lemma_mul_pair(s, ys, hr, wr);
    lemma_mul_distributes(s * xs, c * ys, m);
    lemma_mul_pair(s, xs, hr, wr);
    lemma_mul_pair(c, ys, hr, wr);
}

/// The offset of a fraction from a scalar, as one fraction.
pub proof fn lemma_offset_fraction(x: int, w: int, f: int)
    requires
        w != 0,
    ensures
        (x as real) / (w as real) - (f as real) / 10000real == ((x * 10000 - f * w) as real) / ((w
            * 10000) as real),
{
    let xr = x as real;
    let wr = w as real;
    let fr = f as real;
    let q1 = xr / wr;
    let q2 = fr / 10000real;
    lemma_div_mul(xr, wr);
    lemma_cast_mul(f, w);
    lemma_mul_nonzero(wr, 10000real);
    lemma_mul_distributes(q1, q2, wr * 10000real);
    lemma_mul_assoc(q1, wr, 10000real);
    lemma_mul_comm(wr, 10000real);
    lemma_mul_assoc(q2, 10000real, wr);
    lemma_div_is(xr * 10000real - fr * wr, wr * 10000real, q1 - q2);
}

/// The diagonal entries of the camera's perspective matrix and of its
/// inverse, cleared of their denominators.
pub proof fn lemma_frustum_fractions()
    ensures
        frustum_scale() * 5741real == 13860real,
        frustum_unscale() * 13860real == 5741real,
{
    let fov = Angle { p: 5741, q: 13860 };
    assert(fov.tan_half() == fov_tan());
    lemma_div_mul(1000real, 10000real);
    lemma_scale_entry(fov, near());
    lemma_div_mul(13860real, 5741real);
    lemma_div_mul(5741real, 13860real);
}

/// The screen coordinate `(k * r) / d` as a fraction of integers seen as
/// real numbers.
pub proof fn lemma_screen_fraction(k: real, r: real, d: real, nx: real, hr: real, dr: real)
    requires
        k * 5741real == 13860real,
        r * (hr * 10000real) == nx,
        d * 10000real == dr,
        hr != 0real,
        dr != 0real,
    ensures
        (hr * 5741real) * dr != 0real,
        (k * r) / d == (nx * 13860real) / ((hr * 5741real) * dr),
{
    let h4 = hr * 10000real;
    lemma_mul_nonzero(hr * 5741real, dr);
    // (k * r) * ((hr * 5741) * dr) == ((k * 5741) * (r * h4)) * d
    lemma_mul_pair(hr, 5741real, 10000real, d);
    lemma_mul_assoc(hr * 10000real, 5741real, d);
    lemma_mul_comm(h4, 5741real);
    lemma_mul_comm(10000real, d);
    assert((hr * 5741real) * dr == (5741real * h4) * d);
    lemma_mul_assoc(k * r, 5741real * h4, d);
    lemma_mul_pair(k, r, 5741real, h4);
    assert((k * r) * ((hr * 5741real) * dr) == (13860real * nx) * d);
    lemma_div_cross(k * r, d, nx * 13860real, (hr * 5741real) * dr);
}

/// The world coordinate `d * (j * q) + f` as a fraction of integers seen as
/// real numbers, where `q` is a fraction with the denominator `m`.
pub proof fn lemma_world_fraction(
    d: real,
    j: real,
    q: real,
    f: real,
    nq: real,
    m: real,
    dr: real,
    fr: real,
)
    requires
        j * 13860real == 5741real,
        q * m == nq,
        d * 10000real == dr,
        f * 10000real == fr,
        m != 0real,
    ensures
        10000real * (13860real * m) != 0real,
        d * (j * q) + f == (dr * (5741real * nq) + fr * (13860real * m)) / (10000real * (13860real
            * m)),
{
    let den = 10000real * (13860real * m);
    let e = d * (j * q);
    lemma_mul_pair(j, q, 13860real, m);
    lemma_mul_pair(d, j * q, 10000real, 13860real * m);
    assert(e * den == dr * (5741real * nq));
    lemma_mul_assoc(f, 10000real, 13860real * m);
    assert(f * den == fr * (13860real * m));
    lemma_mul_distributes(e, f, den);
    lemma_div_is(dr * (5741real * nq) + fr * (13860real * m), den, e + f);
}

/// The extent `2 * (d * j)` of the visible part of the world plane as a
/// fraction of integers seen as real numbers.
pub proof fn lemma_extent_fraction(d: real, j: real, dr: real)
    requires
        j * 13860real == 5741real,
        d * 10000real == dr,
    ensures
        2real * (d * j) == (2real * (dr * 5741real)) / (10000real * 13860real),
{
    lemma_mul_pair(d, j, 10000real, 13860real);
    lemma_mul_assoc(2real, d * j, 10000real * 13860real);
    lemma_div_is(2real * (dr * 5741real), 10000real * 13860real, 2real * (d * j));
}

} // verus!
