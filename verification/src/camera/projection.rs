//! Projection matrices: the perspective frustum, its inverse, and the
//! orthographic projection of the viewport.

use vstd::prelude::*;
use crate::angle::Angle;
use crate::linalg::{
    identity, lemma_mat_mul_entries, lemma_mat_vec_entries, mat_mul, mat_vec, RealMat4, RealVec4,
};
use crate::matrix::{Mat4, Vec4};
use crate::rational::Rational;
use crate::reals::{
    lemma_cast_mul, lemma_div_cross, lemma_div_is, lemma_div_le, lemma_div_mul, lemma_div_neg,
    lemma_div_scale, lemma_factors_nonzero, lemma_mul_assoc, lemma_mul_cancel, lemma_mul_comm,
    lemma_mul_distributes, lemma_mul_le, lemma_mul_neg, lemma_mul_nonzero, lemma_mul_pair,
    lemma_mul_positive, lemma_mul_swap, lemma_reciprocal, lemma_same_multiple,
    lemma_scaled_product,
};
use crate::scalar::Scalar;

verus! {

/// The tangent of half the field of view, as a fraction: 5741 / 13860 is the
/// tangent of an eighth of a half turn (the square root of two, less one) to
/// eight decimal places.
pub const FOV_TAN_NUM: i16 = 5741;

pub const FOV_TAN_DEN: i16 = 13860;

/// The near plane, 0.1, in ten-thousandths.
pub const NEAR_RAW: i32 = 1_000;

/// The far plane, 5000, in ten-thousandths.
pub const FAR_RAW: i32 = 50_000_000;

/// The camera's field of view, a quarter of a half turn.
pub fn fov_angle() -> (a: Angle)
    ensures
        a.p == FOV_TAN_NUM,
        a.q == FOV_TAN_DEN,
{
    Angle { p: FOV_TAN_NUM, q: FOV_TAN_DEN }
}

/// The camera's near plane.
pub fn near_plane() -> (s: Scalar)
    ensures
        s.raw == NEAR_RAW,
{
    Scalar { raw: NEAR_RAW }
}

/// The camera's far plane.
pub fn far_plane() -> (s: Scalar)
    ensures
        s.raw == FAR_RAW,
{
    Scalar { raw: FAR_RAW }
}

pub open spec fn fov_tan() -> real {
    5741real / 13860real
}

pub open spec fn near() -> real {
    1000real / 10000real
}

pub open spec fn far() -> real {
    50000000real / 10000real
}

/// The frustum of a square, centered view: `t` is the tangent of half the
/// field of view, so that the near plane's right and top edges lie at
/// `t * near`.
#[verifier::inline]
pub open spec fn perspective_model(t: real, near: real, far: real) -> RealMat4 {
    let right = t * near;
    let top = t * near;
    RealMat4 {
        r0: RealVec4 { x: near / right, y: 0real, z: 0real, w: 0real },
        r1: RealVec4 { x: 0real, y: near / top, z: 0real, w: 0real },
        r2: RealVec4 {
            x: 0real,
            y: 0real,
            z: -(far + near) / (far - near),
            w: -2real * (far * near) / (far - near),
        },
        r3: RealVec4 { x: 0real, y: 0real, z: -1real, w: 0real },
    }
}

/// The inverse of `perspective_model`, written out term by term.
#[verifier::inline]
pub open spec fn inverse_perspective_model(t: real, near: real, far: real) -> RealMat4 {
    let right = t * near;
    let top = t * near;
    RealMat4 {
        r0: RealVec4 { x: right / near, y: 0real, z: 0real, w: 0real },
        r1: RealVec4 { x: 0real, y: top / near, z: 0real, w: 0real },
        r2: RealVec4 { x: 0real, y: 0real, z: 0real, w: -1real },
        r3: RealVec4 {
            x: 0real,
            y: 0real,
            z: (far - near) / (-2real * near * far),
            w: (far + near) / (2real * far * near),
        },
    }
}

/// The orthographic projection of the box between `left` and `right`,
/// `bottom` and `top`, `znear` and `zfar` onto the cube from -1 to 1,
/// right-handed.
#[verifier::inline]
pub open spec fn ortho_model(
    left: real,
    right: real,
    bottom: real,
    top: real,
    znear: real,
    zfar: real,
) -> RealMat4 {
    RealMat4 {
        r0: RealVec4 {
            x: 2real / (right - left),
            y: 0real,
            z: 0real,
            w: -(right + left) / (right - left),
        },
        r1: RealVec4 {
            x: 0real,
            y: 2real / (top - bottom),
            z: 0real,
            w: -(top + bottom) / (top - bottom),
        },
        r2: RealVec4 {
            x: 0real,
            y: 0real,
            z: -2real / (zfar - znear),
            w: -(zfar + znear) / (zfar - znear),
        },
        r3: RealVec4 { x: 0real, y: 0real, z: 0real, w: 1real },
    }
}

/// The depth, after the perspective divide, of a point that lies at depth
/// `z` in front of the camera.
pub open spec fn perspective_z_model(near: real, far: real, z: real) -> real {
    let u = mat_vec(
        perspective_model(fov_tan(), near, far),
        RealVec4 { x: 0real, y: 0real, z: z, w: 1real },
    );
    u.z / u.w
}

/// The perspective matrix and its term-by-term inverse multiply to the
/// identity, in either order.
pub proof fn perspective_inverse_law(t: real, near: real, far: real)
    requires
        t != 0real,
        near != 0real,
        far != 0real,
        far != near,
    ensures
        mat_mul(perspective_model(t, near, far), inverse_perspective_model(t, near, far))
            == identity(),
        mat_mul(inverse_perspective_model(t, near, far), perspective_model(t, near, far))
            == identity(),
{
    let tn = t * near;
    let e = far - near;
    let s = far + near;
    let x = -2real * (far * near);
    let qa = -2real * near * far;
    let qb = 2real * far * near;
    let a = (-s) / e;
    let b = x / e;
    let c = e / qa;
    let d = s / qb;
    lemma_mat_mul_entries(
        perspective_model(t, near, far),
        inverse_perspective_model(t, near, far),
    );
    lemma_mat_mul_entries(
        inverse_perspective_model(t, near, far),
        perspective_model(t, near, far),
    );
    // the diagonal entries undo each other
    lemma_mul_nonzero(t, near);
    lemma_reciprocal(near, tn);
    lemma_mul_comm(near / tn, tn / near);
    // the three denominators
    lemma_mul_nonzero(far, near);
    lemma_mul_comm(near, far);
    lemma_mul_assoc(-2real, near, far);
    lemma_mul_assoc(2real, far, near);
    assert(qa == x && qb == -x);
    lemma_mul_nonzero(e, qb);
    lemma_mul_nonzero(qa, e);
    lemma_div_mul(-s, e);
    lemma_div_mul(x, e);
    lemma_div_mul(e, qa);
    lemma_div_mul(s, qb);
    // b * c == 1
    lemma_reciprocal(x, e);
    lemma_mul_comm(b, c);
    // b * d == a
    lemma_mul_pair(b, d, e, qb);
    lemma_mul_assoc(a, e, qb);
    lemma_mul_neg(s, qb);
    lemma_mul_neg(qb, s);
    lemma_mul_comm(qb, s);
    lemma_same_multiple(b * d, a, e * qb);
    // c * a == d
    lemma_mul_pair(c, a, qa, e);
    lemma_mul_neg(e, s);
    lemma_mul_assoc(d, qa, e);
    lemma_mul_neg(d, qb);
    lemma_mul_neg(s, e);
    lemma_mul_comm(e, s);
    lemma_same_multiple(c * a, d, qa * e);
}

/// Builds the perspective matrix of a square, centered frustum whose half
/// field of view has the tangent `fov.p / fov.q`.
pub fn perspective(fov: Angle, near: Scalar, far: Scalar) -> (m: Mat4)
    requires
        fov.p != 0,
        fov.q != 0,
        near.raw != 0,
        far.raw != near.raw,
    ensures
        m.wf(),
        m@ == perspective_model(fov.tan_half(), near@, far@),
{
    let p: i128 = fov.p as i128;
    let q: i128 = fov.q as i128;
    let n: i128 = near.raw as i128;
    let f: i128 = far.raw as i128;
    proof {
        lemma_raw_product_bounds(f as int, n as int);
    }
    let scale = Rational::new(q, p);
    let depth = Rational::new(-(f + n), f - n);
    let offset = Rational::new(-2 * (f * n), 10000 * (f - n));
    proof {
        lemma_scale_entry(fov, near@);
        lemma_depth_entries(f as int, n as int);
    }
    Mat4 {
        r0: Vec4 {
            x: scale,
            y: Rational::from_int(0),
            z: Rational::from_int(0),
            w: Rational::from_int(0),
        },
        r1: Vec4 {
            x: Rational::from_int(0),
            y: scale,
            z: Rational::from_int(0),
            w: Rational::from_int(0),
        },
        r2: Vec4 { x: Rational::from_int(0), y: Rational::from_int(0), z: depth, w: offset },
        r3: Vec4::from_ints(0, 0, -1, 0),
    }
}

/// Builds the inverse of the perspective matrix directly, without inverting
/// a matrix.
pub fn inverse_perspective(fov: Angle, near: Scalar, far: Scalar) -> (m: Mat4)
    requires
        fov.p != 0,
        fov.q != 0,
        near.raw != 0,
        far.raw != 0,
        far.raw != near.raw,
    ensures
        m.wf(),
        m@ == inverse_perspective_model(fov.tan_half(), near@, far@),
        mat_mul(perspective_model(fov.tan_half(), near@, far@), m@) == identity(),
        mat_mul(m@, perspective_model(fov.tan_half(), near@, far@)) == identity(),
{
    let p: i128 = fov.p as i128;
    let q: i128 = fov.q as i128;
    let n: i128 = near.raw as i128;
    let f: i128 = far.raw as i128;
    proof {
        lemma_raw_product_bounds(f as int, n as int);
        lemma_raw_product_bounds(n as int, f as int);
        lemma_int_product_nonzero(f as int, n as int);
    }
    let scale = Rational::new(p, q);
    let depth = Rational::new(10000 * (f - n), -2 * (n * f));
    let offset = Rational::new(10000 * (f + n), 2 * (f * n));
    proof {
        lemma_scale_entry(fov, near@);
        lemma_inverse_depth_entries(f as int, n as int);
        lemma_div_mul(p as real, q as real);
        lemma_factors_nonzero(fov.tan_half(), q as real);
        perspective_inverse_law(fov.tan_half(), near@, far@);
    }
    Mat4 {
        r0: Vec4 {
            x: scale,
            y: Rational::from_int(0),
            z: Rational::from_int(0),
            w: Rational::from_int(0),
        },
        r1: Vec4 {
            x: Rational::from_int(0),
            y: scale,
            z: Rational::from_int(0),
            w: Rational::from_int(0),
        },
        r2: Vec4::from_ints(0, 0, 0, -1),
        r3: Vec4 { x: Rational::from_int(0), y: Rational::from_int(0), z: depth, w: offset },
    }
}

/// The depth, after the perspective divide, to which the frustum between
/// `near` and `far` maps the camera-space depth `target_z`.
pub fn perspective_z(near: Scalar, far: Scalar, target_z: Scalar) -> (r: Rational)
    requires
        far.raw != near.raw,
        target_z.raw != 0,
    ensures
        r.wf(),
        r@ == perspective_z_model(near@, far@, target_z@),
        r@ == ((far@ + near@) * target_z@ + 2real * (far@ * near@)) / ((far@ - near@)
            * target_z@),
{
    let n: i128 = near.raw as i128;
    let f: i128 = far.raw as i128;
    let z: i128 = target_z.raw as i128;
    proof {
        lemma_raw_product_bounds(f as int, n as int);
        lemma_raw_product_bounds(f + n, z as int);
        lemma_raw_product_bounds(f - n, z as int);
        lemma_int_product_nonzero(f - n, z as int);
        lemma_perspective_z_closed(near@, far@, target_z@);
        lemma_perspective_z_entry(f as int, n as int, z as int);
    }
    Rational::new((f + n) * z + 2 * (f * n), (f - n) * z)
}

/// Builds the orthographic projection of the viewport: pixel `(0, 0)` goes
/// to the lower left corner of the screen, pixel `(w, h)` to the upper right
/// one, and depths from -10 to 10 are kept.
pub fn orthographic(w: u32, h: u32) -> (m: Mat4)
    requires
        w > 0,
        h > 0,
    ensures
        m.wf(),
        m@ == ortho_model(0real, w as real, 0real, h as real, -10real, 10real),
{
    let width: i128 = w as i128;
    let height: i128 = h as i128;
    let sx = Rational::new(2, width);
    let sy = Rational::new(2, height);
    let sz = Rational::new(-1, 10);
    proof {
        lemma_ortho_entries(w as real);
        lemma_ortho_entries(h as real);
        lemma_div_cross(-2real, 10real - (-10real), -1real, 10real);
        lemma_div_is(-(10real + (-10real)), 10real - (-10real), 0real);
    }
    Mat4 {
        r0: Vec4 {
            x: sx,
            y: Rational::from_int(0),
            z: Rational::from_int(0),
            w: Rational::from_int(-1),
        },
        r1: Vec4 {
            x: Rational::from_int(0),
            y: sy,
            z: Rational::from_int(0),
            w: Rational::from_int(-1),
        },
        r2: Vec4 {
            x: Rational::from_int(0),
            y: Rational::from_int(0),
            z: sz,
            w: Rational::from_int(0),
        },
        r3: Vec4::from_ints(0, 0, 0, 1),
    }
}

/// The depth of a point after the perspective divide, in closed form: the
/// third coordinate of the projected point over the fourth.
pub proof fn lemma_depth_closed(near: real, far: real, z: real)
    requires
        far != near,
        z != 0real,
    ensures
        (far - near) * z != 0real,
        (-(far + near) / (far - near) * z + -2real * (far * near) / (far - near)) / (-z) == ((far
            + near) * z + 2real * (far * near)) / ((far - near) * z),
{
    let d = far - near;
    let an = -(far + near);
    let bn = -2real * (far * near);
    let a = an / d;
    let b = bn / d;
    let top = a * z + b;
    let num = (far + near) * z + 2real * (far * near);
    lemma_mul_nonzero(d, z);
    // top * d == -num
    lemma_div_mul(an, d);
    lemma_div_mul(bn, d);
    lemma_mul_distributes(a * z, b, d);
    lemma_mul_swap(a, z, d);
    lemma_mul_neg(far + near, z);
    assert(top * d == -num);
    // top * (d * z) == num * (-z)
    lemma_mul_assoc(top, d, z);
    lemma_mul_neg(num, z);
    lemma_div_cross(top, -z, num, d * z);
}

/// The closed form of `perspective_z_model`.
pub proof fn lemma_perspective_z_closed(near: real, far: real, z: real)
    requires
        far != near,
        z != 0real,
    ensures
        (far - near) * z != 0real,
        perspective_z_model(near, far, z) == ((far + near) * z + 2real * (far * near)) / ((far
            - near) * z),
{
    let v = RealVec4 { x: 0real, y: 0real, z: z, w: 1real };
    lemma_mat_vec_entries(perspective_model(fov_tan(), near, far), v);
    lemma_depth_closed(near, far, z);
}

/// A point inside the frustum is projected into the cube from -1 to 1: where
/// its depth lies between the near and the far plane and its other two
/// coordinates are at most the depth times the tangent of half the field of
/// view in size, all three coordinates of the projected point, after the
/// perspective divide, lie between -1 and 1.
pub proof fn frustum_containment_law(t: real, near: real, far: real, x: real, y: real, z: real)
    requires
        t > 0real,
        0real < near < far,
        -far <= z <= -near,
        -(t * (-z)) <= x <= t * (-z),
        -(t * (-z)) <= y <= t * (-z),
    ensures
        ({
            let u = mat_vec(
                perspective_model(t, near, far),
                RealVec4 { x: x, y: y, z: z, w: 1real },
            );
            &&& -1real <= u.x / u.w <= 1real
            &&& -1real <= u.y / u.w <= 1real
            &&& -1real <= u.z / u.w <= 1real
        }),
{
    let v = RealVec4 { x: x, y: y, z: z, w: 1real };
    let u = mat_vec(perspective_model(t, near, far), v);
    lemma_mat_vec_entries(perspective_model(t, near, far), v);
    let k = near / (t * near);
    let w = -z;
    assert(u.w == 0real * x + 0real * y + (-1real) * z + 0real * 1real);
    assert(u.x == k * x + 0real * y + 0real * z + 0real * 1real);
    assert(u.y == 0real * x + k * y + 0real * z + 0real * 1real);
    lemma_div_is(w, w, 1real);
    lemma_div_neg(w, w);
    // k * t == 1 and k > 0
    lemma_mul_positive(t, near);
    lemma_div_mul(near, t * near);
    lemma_mul_assoc(k, t, near);
    lemma_mul_cancel(k * t, near);
    assert(k > 0real) by {
        if k <= 0real {
            lemma_mul_le(t, k, 0real);
            lemma_mul_comm(t, k);
        }
    }
    lemma_mul_assoc(k, t, w);
    lemma_mul_neg(k, t * w);
    // x and y
    lemma_mul_le(k, x, t * w);
    lemma_mul_le(k, -(t * w), x);
    lemma_div_le(k * x, w, w);
    lemma_div_le(-w, k * x, w);
    lemma_mul_le(k, y, t * w);
    lemma_mul_le(k, -(t * w), y);
    lemma_div_le(k * y, w, w);
    lemma_div_le(-w, k * y, w);
    // z: u.z / u.w == -num / den with den > 0, and -den <= -num <= den
    lemma_depth_closed(near, far, z);
    let e = far - near;
    let num = (far + near) * z + 2real * (far * near);
    let den = e * w;
    lemma_mul_positive(e, w);
    lemma_mul_neg(e, z);
    lemma_mul_neg(num, e * z);
    lemma_div_cross(num, e * z, -num, den);
    assert(u.z / u.w == (-num) / den);
    lemma_mul_distributes(far, near, z);
    lemma_mul_distributes(far, near, w);
    lemma_mul_neg(far, z);
    lemma_mul_neg(near, z);
    // den - (-num) == 2 near (z + far) >= 0
    lemma_mul_le(near, 0real, z + far);
    lemma_mul_distributes(z, far, near);
    lemma_mul_comm(near, z);
    lemma_mul_comm(near, far);
    assert(-num <= den);
    // -num + den == -2 far (z + near) >= 0
    lemma_mul_le(far, z + near, 0real);
    lemma_mul_distributes(z, near, far);
    lemma_mul_comm(far, z);
    assert(-den <= -num);
    lemma_div_is(den, den, 1real);
    lemma_div_neg(den, den);
    lemma_div_le(-num, den, den);
    lemma_div_le(-den, -num, den);
}

/// The two equal entries on the diagonal of the perspective matrix and of
/// its inverse, as fractions of the parts of the field of view.
pub proof fn lemma_scale_entry(fov: Angle, near: real)
    requires
        fov.p != 0,
        fov.q != 0,
        near != 0real,
    ensures
        near / (fov.tan_half() * near) == (fov.q as real) / (fov.p as real),
        (fov.tan_half() * near) / near == (fov.p as real) / (fov.q as real),
{
    let pr = fov.p as real;
    let qr = fov.q as real;
    let t = pr / qr;
    lemma_div_mul(pr, qr);
    lemma_factors_nonzero(t, qr);
    lemma_mul_nonzero(t, near);
    lemma_mul_assoc(qr, t, near);
    lemma_mul_comm(qr, t);
    lemma_mul_comm(near, pr);
    lemma_div_cross(near, t * near, qr, pr);
    lemma_mul_swap(t, near, qr);
    lemma_div_cross(t * near, near, pr, qr);
}

/// The two depth entries of the perspective matrix, as fractions of raw
/// scalars.
proof fn lemma_depth_entries(f: int, n: int)
    requires
        f != n,
    ensures
        ({
            let far = (f as real) / 10000real;
            let near = (n as real) / 10000real;
            &&& -(far + near) / (far - near) == ((-(f + n)) as real) / ((f - n) as real)
            &&& -2real * (far * near) / (far - near) == ((-2 * (f * n)) as real) / ((10000 * (f
                - n)) as real)
        }),
{
    let fr = f as real;
    let nr = n as real;
    let far = fr / 10000real;
    let near = nr / 10000real;
    lemma_cast_mul(f, n);
    lemma_cast_mul(-2, f * n);
    let d = far - near;
    let a = -(far + near);
    let b = -2real * (far * near);
    let dd = fr - nr;
    let aa = -(fr + nr);
    let bb = -2real * (fr * nr);
    assert((-(fr / 10000real + nr / 10000real)) * (fr - nr) == (-(fr + nr)) * (fr / 10000real - nr
        / 10000real)) by (nonlinear_arith);
    lemma_div_cross(a, d, aa, dd);
    assert((-2real * ((fr / 10000real) * (nr / 10000real))) * (10000real * (fr - nr)) == (-2real
        * (fr * nr)) * (fr / 10000real - nr / 10000real)) by (nonlinear_arith);
    lemma_div_cross(b, d, bb, 10000real * dd);
}

/// The two depth entries of the inverse perspective matrix, as fractions of
/// raw scalars.
proof fn lemma_inverse_depth_entries(f: int, n: int)
    requires
        f != 0,
        n != 0,
    ensures
        ({
            let far = (f as real) / 10000real;
            let near = (n as real) / 10000real;
            &&& (far - near) / (-2real * near * far) == ((10000 * (f - n)) as real) / ((-2 * (n
                * f)) as real)
            &&& (far + near) / (2real * far * near) == ((10000 * (f + n)) as real) / ((2 * (f
                * n)) as real)
        }),
{
    let fr = f as real;
    let nr = n as real;
    let far = fr / 10000real;
    let near = nr / 10000real;
    lemma_cast_mul(f, n);
    lemma_cast_mul(n, f);
    lemma_cast_mul(-2, n * f);
    lemma_cast_mul(2, f * n);
    lemma_mul_nonzero(nr, fr);
    lemma_mul_nonzero(fr, nr);
    lemma_mul_nonzero(-2real, nr * fr);
    lemma_mul_nonzero(2real, fr * nr);
    lemma_mul_nonzero(-2real, near);
    lemma_mul_nonzero(-2real * near, far);
    lemma_mul_nonzero(2real, far);
    lemma_mul_nonzero(2real * far, near);
    let a = far - near;
    let b = -2real * near * far;
    let aa = 10000real * (fr - nr);
    let bb = -2real * (nr * fr);
    assert((fr / 10000real - nr / 10000real) * (-2real * (nr * fr)) == (10000real * (fr - nr)) * (
    -2real * (nr / 10000real) * (fr / 10000real))) by (nonlinear_arith);
    lemma_div_cross(a, b, aa, bb);
    let c = far + near;
    let d = 2real * far * near;
    let cc = 10000real * (fr + nr);
    let dd = 2real * (fr * nr);
    assert((fr / 10000real + nr / 10000real) * (2real * (fr * nr)) == (10000real * (fr + nr)) * (
    2real * (fr / 10000real) * (nr / 10000real))) by (nonlinear_arith);
    lemma_div_cross(c, d, cc, dd);
}

/// The closed form of the mapped depth, as a fraction of raw scalars.
proof fn lemma_perspective_z_entry(f: int, n: int, z: int)
    requires
        f != n,
        z != 0,
    ensures
        ({
            let far = (f as real) / 10000real;
            let near = (n as real) / 10000real;
            let depth = (z as real) / 10000real;
            (((f + n) * z + 2 * (f * n)) as real) / (((f - n) * z) as real) == ((far + near)
                * depth + 2real * (far * near)) / ((far - near) * depth)
        }),
{
    let far = (f as real) / 10000real;
    let near = (n as real) / 10000real;
    let depth = (z as real) / 10000real;
    lemma_cast_mul(f + n, z);
    lemma_cast_mul(f, n);
    lemma_cast_mul(2, f * n);
    lemma_cast_mul(f - n, z);
    lemma_scaled_product(far + near, depth);
    lemma_scaled_product(far, near);
    lemma_scaled_product(far - near, depth);
    let a = (far + near) * depth + 2real * (far * near);
    let b = (far - near) * depth;
    assert((((f + n) * z + 2 * (f * n)) as real) == 100000000real * a);
    assert((((f - n) * z) as real) == 100000000real * b);
    lemma_mul_nonzero(far - near, depth);
    lemma_div_scale(a, b, 100000000real);
}

/// The entries of the orthographic matrix along one axis of a viewport that
/// starts at zero.
proof fn lemma_ortho_entries(size: real)
    requires
        size > 0real,
    ensures
        2real / (size - 0real) == 2real / size,
        -(size + 0real) / (size - 0real) == -1real,
{
    assert(-1real * size == -size);
    lemma_div_cross(-size, size, -1real, 1real);
    assert(-1real / 1real == -1real);
}

/// A product of two integers other than zero is not zero.
proof fn lemma_int_product_nonzero(x: int, y: int)
    requires
        x != 0,
        y != 0,
    ensures
        x * y != 0,
        y * x != 0,
{
    assert(x * y != 0 && y * x != 0) by (nonlinear_arith)
        requires
            x != 0,
            y != 0,
    ;
}

/// The product of two numbers that are sums or differences of two raw
/// scalars stays far inside the range of `i128`.
proof fn lemma_raw_product_bounds(x: int, y: int)
    requires
        -0x1_0000_0000 <= x <= 0x1_0000_0000,
        -0x1_0000_0000 <= y <= 0x1_0000_0000,
    ensures
        -0x1_0000_0000_0000_0000 <= x * y <= 0x1_0000_0000_0000_0000,
{
    assert(-0x1_0000_0000_0000_0000 <= x * y <= 0x1_0000_0000_0000_0000) by (nonlinear_arith)
        requires
            -0x1_0000_0000 <= x <= 0x1_0000_0000,
            -0x1_0000_0000 <= y <= 0x1_0000_0000,
    ;
}

} // verus!
