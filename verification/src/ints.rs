//! Integers: bounds on products, by which the camera's arithmetic is shown to
//! stay inside `i128`, and greatest common divisors, by which its fractions
//! are kept small.

use vstd::prelude::*;
use vstd::arithmetic::div_mod::{
    lemma_fundamental_div_mod, lemma_mod_multiples_vanish, lemma_mod_self_0, lemma_small_mod,
    lemma_truncate_middle,
};
use vstd::arithmetic::mul::{
    lemma_mul_basics, lemma_mul_equality_converse, lemma_mul_is_associative,
    lemma_mul_nonnegative, lemma_mul_strictly_positive, lemma_mul_unary_negation,
    lemma_mul_upper_bound,
};

verus! {

/// A product is bounded by the product of the bounds of its factors.
pub proof fn lemma_product_bound(x: int, y: int, a: int, b: int)
    requires
        -a <= x <= a,
        -b <= y <= b,
    ensures
        -(a * b) <= x * y <= a * b,
{
    let ax = if x < 0 {
        -x
    } else {
        x
    };
    let ay = if y < 0 {
        -y
    } else {
        y
    };
    lemma_mul_upper_bound(ax, a, ay, b);
    lemma_mul_nonnegative(ax, ay);
    lemma_mul_unary_negation(ax, ay);
    lemma_mul_unary_negation(-ax, ay);
    lemma_mul_unary_negation(ax, -ay);
}

/// A product of two positive integers is positive.
pub proof fn lemma_product_positive(x: int, y: int)
    requires
        x > 0,
        y > 0,
    ensures
        x * y > 0,
{
    lemma_mul_strictly_positive(x, y);
}

/// The greatest common divisor of two numbers; of zero and zero it is zero.
pub open spec fn gcd(a: nat, b: nat) -> nat
    decreases b,
{
    if b == 0 {
        a
    } else {
        gcd(b, a % b)
    }
}

/// `d` divides `x`.
pub open spec fn divides(d: nat, x: nat) -> bool {
    d > 0 && x % d == 0
}

/// What a number divides, its divisors divide.
pub proof fn lemma_divides_transitive(d: nat, h: nat, x: nat)
    requires
        divides(d, h),
        divides(h, x),
    ensures
        divides(d, x),
{
    lemma_fundamental_div_mod(x as int, h as int);
    lemma_fundamental_div_mod(h as int, d as int);
    let k = x as int / h as int;
    let m = h as int / d as int;
    lemma_mul_is_associative(d as int, m, k);
    lemma_mod_multiples_vanish(m * k, 0, d as int);
    lemma_small_mod(0, d);
}

/// The greatest common divisor of two numbers that are not both zero
/// divides both.
pub proof fn lemma_gcd_divides(a: nat, b: nat)
    requires
        a > 0 || b > 0,
    ensures
        divides(gcd(a, b), a),
        divides(gcd(a, b), b),
    decreases b,
{
    if b == 0 {
        lemma_mod_self_0(a as int);
        lemma_small_mod(0, a);
    } else {
        lemma_gcd_divides(b, a % b);
        let g = gcd(b, a % b);
        lemma_fundamental_div_mod(a as int, b as int);
        lemma_fundamental_div_mod(b as int, g as int);
        let k = a as int / b as int;
        let m = b as int / g as int;
        lemma_mul_is_associative(g as int, m, k);
        lemma_mod_multiples_vanish(m * k, (a % b) as int, g as int);
    }
}

/// The greatest common divisor of three numbers, the last of which is not
/// zero, divides all three.
pub proof fn lemma_gcd3_divides(a: nat, b: nat, c: nat)
    requires
        c > 0,
    ensures
        divides(gcd(gcd(a, b), c), a),
        divides(gcd(gcd(a, b), c), b),
        divides(gcd(gcd(a, b), c), c),
{
    let h = gcd(a, b);
    let g = gcd(h, c);
    lemma_gcd_divides(h, c);
    if h == 0 {
        assert(a == 0 && b == 0) by {
            if a > 0 || b > 0 {
                lemma_gcd_divides(a, b);
            }
        }
        lemma_small_mod(0, g);
    } else {
        lemma_gcd_divides(a, b);
        lemma_divides_transitive(g, h, a);
        lemma_divides_transitive(g, h, b);
    }
}

/// The greatest common divisor of the multiples of two numbers is the
/// multiple of their greatest common divisor.
pub proof fn lemma_gcd_scale(k: nat, a: nat, b: nat)
    requires
        k > 0,
    ensures
        gcd(k * a, k * b) == k * gcd(a, b),
    decreases b,
{
    lemma_mul_basics(k as int);
    if b > 0 {
        lemma_mul_strictly_positive(k as int, b as int);
        lemma_truncate_middle(a as int, k as int, b as int);
        lemma_gcd_scale(k, b, a % b);
    }
}

/// Where three numbers are divided by their greatest common divisor, what
/// is left has no common divisor but one.
pub proof fn lemma_gcd3_of_quotients(g: nat, a: nat, b: nat, c: nat)
    requires
        g > 0,
        gcd(gcd(g * a, g * b), g * c) == g,
    ensures
        gcd(gcd(a, b), c) == 1,
{
    lemma_gcd_scale(g, a, b);
    lemma_gcd_scale(g, gcd(a, b), c);
    lemma_mul_basics(g as int);
    lemma_mul_equality_converse(g as int, gcd(gcd(a, b), c) as int, 1);
}

/// The greatest common divisor, by Euclid's algorithm.
pub fn greatest_common_divisor(a: u128, b: u128) -> (g: u128)
    ensures
        g == gcd(a as nat, b as nat),
{
    let mut x: u128 = a;
    let mut y: u128 = b;
    while y != 0
        invariant
            gcd(x as nat, y as nat) == gcd(a as nat, b as nat),
        decreases y,
    {
        let t: u128 = x % y;
        x = y;
        y = t;
    }
    x
}

} // verus!
