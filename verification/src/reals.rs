//! Small facts about real numbers and about integers seen as real numbers,
//! from which the larger proofs of the crate are put together.

use vstd::prelude::*;

verus! {

/// Seen as real numbers, the product of two integers is the product of the
/// two.
pub proof fn lemma_cast_mul(x: int, y: int)
    ensures
        (x * y) as real == (x as real) * (y as real),
    decreases
            (if y >= 0 {
                y
            } else {
                -y
            }),
{
    let xr = x as real;
    let yr = y as real;
    if y == 0 {
        assert(x * y == 0) by (nonlinear_arith)
            requires
                y == 0,
        ;
        assert(xr * yr == 0real) by (nonlinear_arith)
            requires
                yr == 0real,
        ;
    } else if y > 0 {
        lemma_cast_mul(x, y - 1);
        let zr = (y - 1) as real;
        assert(x * y == x * (y - 1) + x) by (nonlinear_arith);
        assert(xr * yr == xr * zr + xr) by (nonlinear_arith)
            requires
                yr == zr + 1real,
        ;
    } else {
        lemma_cast_mul(x, y + 1);
        let zr = (y + 1) as real;
        assert(x * y == x * (y + 1) - x) by (nonlinear_arith);
        assert(xr * yr == xr * zr - xr) by (nonlinear_arith)
            requires
                yr == zr - 1real,
        ;
    }
}

/// Two fractions are equal when they agree after cross-multiplication.
pub proof fn lemma_div_cross(a: real, b: real, c: real, d: real)
    requires
        b != 0real,
        d != 0real,
        a * d == c * b,
    ensures
        a / b == c / d,
{
    assert(a / b == c / d) by (nonlinear_arith)
        requires
            b != 0real,
            d != 0real,
            a * d == c * b,
    ;
}

/// A fraction is the number that gives the numerator back when multiplied by
/// the denominator.
pub proof fn lemma_div_is(a: real, b: real, q: real)
    requires
        b != 0real,
        q * b == a,
    ensures
        a / b == q,
{
    assert(a / b == q) by (nonlinear_arith)
        requires
            b != 0real,
            q * b == a,
    ;
}

/// A product of two numbers other than zero is not zero.
pub proof fn lemma_mul_nonzero(a: real, b: real)
    requires
        a != 0real,
        b != 0real,
    ensures
        a * b != 0real,
{
    assert(a * b != 0real) by (nonlinear_arith)
        requires
            a != 0real,
            b != 0real,
    ;
}

/// Dividing and then multiplying by the same number gives the number back.
pub proof fn lemma_div_mul(a: real, b: real)
    requires
        b != 0real,
    ensures
        (a / b) * b == a,
{
    assert((a / b) * b == a) by (nonlinear_arith)
        requires
            b != 0real,
    ;
}

/// A product that is not zero has no factor that is zero.
pub proof fn lemma_factors_nonzero(a: real, b: real)
    requires
        a * b != 0real,
    ensures
        a != 0real,
        b != 0real,
{
    assert(a != 0real && b != 0real) by (nonlinear_arith)
        requires
            a * b != 0real,
    ;
}

/// Multiplying the numerator and the denominator by the same number leaves
/// a fraction unchanged.
pub proof fn lemma_div_scale(a: real, b: real, k: real)
    requires
        b != 0real,
        k != 0real,
    ensures
        k * b != 0real,
        (k * a) / (k * b) == a / b,
{
    lemma_mul_nonzero(k, b);
    assert((k * a) * b == a * (k * b)) by (nonlinear_arith);
    lemma_div_cross(k * a, k * b, a, b);
}

pub proof fn lemma_mul_comm(a: real, b: real)
    ensures
        a * b == b * a,
{
    assert(a * b == b * a) by (nonlinear_arith);
}

pub proof fn lemma_mul_assoc(a: real, b: real, c: real)
    ensures
        (a * b) * c == a * (b * c),
{
    assert((a * b) * c == a * (b * c)) by (nonlinear_arith);
}

/// The middle factor of a product can change places with the last one.
pub proof fn lemma_mul_swap(a: real, b: real, c: real)
    ensures
        (a * b) * c == (a * c) * b,
{
    assert((a * b) * c == (a * c) * b) by (nonlinear_arith);
}

pub proof fn lemma_mul_distributes(a: real, b: real, c: real)
    ensures
        (a + b) * c == a * c + b * c,
        c * (a + b) == c * a + c * b,
        (a - b) * c == a * c - b * c,
        c * (a - b) == c * a - c * b,
{
    assert((a + b) * c == a * c + b * c) by (nonlinear_arith);
    assert(c * (a + b) == c * a + c * b) by (nonlinear_arith);
    assert((a - b) * c == a * c - b * c) by (nonlinear_arith);
    assert(c * (a - b) == c * a - c * b) by (nonlinear_arith);
}

pub proof fn lemma_mul_neg(a: real, b: real)
    ensures
        (-a) * b == -(a * b),
        a * (-b) == -(a * b),
        (-a) * (-b) == a * b,
{
    assert((-a) * b == -(a * b)) by (nonlinear_arith);
    assert(a * (-b) == -(a * b)) by (nonlinear_arith);
    assert((-a) * (-b) == a * b) by (nonlinear_arith);
}

/// Only one times a number other than zero is that number.
pub proof fn lemma_mul_cancel(x: real, q: real)
    requires
        q != 0real,
        x * q == q,
    ensures
        x == 1real,
{
    assert(1real * q == q);
    lemma_div_is(q, q, x);
    lemma_div_is(q, q, 1real);
}

/// Two numbers with the same multiple by a number other than zero are the
/// same.
pub proof fn lemma_same_multiple(p: real, q: real, m: real)
    requires
        m != 0real,
        p * m == q * m,
    ensures
        p == q,
{
    lemma_div_is(p * m, m, p);
    lemma_div_is(q * m, m, q);
}

/// A fraction times the fraction turned over is one.
pub proof fn lemma_reciprocal(x: real, y: real)
    requires
        x != 0real,
        y != 0real,
    ensures
        (x / y) * (y / x) == 1real,
{
    let a = x / y;
    let b = y / x;
    lemma_div_mul(x, y);
    lemma_div_mul(y, x);
    lemma_mul_assoc(a, b, x);
    lemma_mul_cancel(a * b, x);
}

/// A product with a factor that is zero is zero.
pub proof fn lemma_mul_by_zero(a: real, b: real)
    requires
        a == 0real,
    ensures
        a * b == 0real,
        b * a == 0real,
{
    assert(0real * b == 0real && b * 0real == 0real);
}

/// The two inner factors of a product of two products can change places.
pub proof fn lemma_mul_pair(a: real, b: real, c: real, d: real)
    ensures
        (a * b) * (c * d) == (a * c) * (b * d),
{
    lemma_mul_assoc(a, b, c * d);
    lemma_mul_assoc(b, c, d);
    lemma_mul_comm(b, c);
    lemma_mul_assoc(c, b, d);
    lemma_mul_assoc(a, c, b * d);
}

/// A product of two positive numbers is positive.
pub proof fn lemma_mul_positive(a: real, b: real)
    requires
        a > 0real,
        b > 0real,
    ensures
        a * b > 0real,
{
    assert(a * b > 0real) by (nonlinear_arith)
        requires
            a > 0real,
            b > 0real,
    ;
}

/// Multiplying by a number that is not negative keeps the order.
pub proof fn lemma_mul_le(k: real, a: real, b: real)
    requires
        k >= 0real,
        a <= b,
    ensures
        k * a <= k * b,
{
    assert(k * a <= k * b) by (nonlinear_arith)
        requires
            k >= 0real,
            a <= b,
    ;
}

/// Dividing by a positive number keeps the order.
pub proof fn lemma_div_le(a: real, b: real, d: real)
    requires
        d > 0real,
        a <= b,
    ensures
        a / d <= b / d,
{
    assert(a / d <= b / d) by (nonlinear_arith)
        requires
            d > 0real,
            a <= b,
    ;
}

/// A fraction with its numerator negated is the negated fraction.
pub proof fn lemma_div_neg(a: real, b: real)
    requires
        b != 0real,
    ensures
        (-a) / b == -(a / b),
{
    lemma_div_mul(a, b);
    lemma_mul_neg(a / b, b);
    lemma_div_is(-a, b, -(a / b));
}

/// A product with a factor that is one is the other factor.
pub proof fn lemma_mul_by_one(a: real, b: real)
    requires
        a == 1real,
    ensures
        a * b == b,
        b * a == b,
{
    assert(1real * b == b && b * 1real == b);
}

/// The product of two numbers given in ten-thousandths is their product in
/// hundred-millionths.
pub proof fn lemma_scaled_product(x: real, y: real)
    ensures
        (10000real * x) * (10000real * y) == 100000000real * (x * y),
{
    assert((10000real * x) * (10000real * y) == 100000000real * (x * y)) by (nonlinear_arith);
}

} // verus!
