//! Fixed-point scalars: the numbers a camera pose is made of.

use vstd::prelude::*;

verus! {

/// How many raw units make one: a scalar has four decimal places.
pub const SCALE: i32 = 10_000;

/// A number held as a count of ten-thousandths.
///
/// Every `i32` is a valid count, so scalars range over about 214748.3647 to either side of zero.
#[derive(Clone, Copy, Debug, PartialEq, Eq, Structural)]
pub struct Scalar {
    pub raw: i32,
}

impl Scalar {
    /// The number that this scalar stands for.
    pub open spec fn view(&self) -> real {
        (self.raw as real) / 10000real
    }

    /// Whether a count of ten-thousandths can be held.
    pub open spec fn fits(raw: int) -> bool {
        i32::MIN <= raw <= i32::MAX
    }

    /// The scalar of `raw` ten-thousandths.
    pub fn from_raw(raw: i32) -> (s: Scalar)
        ensures
            s.raw == raw,
    {
        Scalar { raw }
    }

    /// The scalar that stands for the whole number `n`.
    pub fn from_int(n: i16) -> (s: Scalar)
        ensures
            s.raw == n * SCALE,
            s@ == n as real,
    {
        let wide: i32 = n as i32;
        let raw: i32 = wide * SCALE;
        Scalar { raw }
    }

    pub fn zero() -> (s: Scalar)
        ensures
            s.raw == 0,
            s@ == 0real,
    {
        Scalar { raw: 0 }
    }

    /// The sum of two scalars, where it can be held.
    pub fn plus(self, other: Scalar) -> (s: Scalar)
        requires
            Self::fits(self.raw + other.raw),
        ensures
            s.raw == self.raw + other.raw,
            s@ == self@ + other@,
    {
        let raw: i32 = self.raw + other.raw;
        Scalar { raw }
    }

    /// The sum of two scalars, or `None` where it cannot be held.
    pub fn checked_plus(self, other: Scalar) -> (r: Option<Scalar>)
        ensures
            r is Some <==> Self::fits(self.raw + other.raw),
            r matches Some(s) ==> s.raw == self.raw + other.raw && s@ == self@ + other@,
    {
        let wide: i64 = self.raw as i64 + other.raw as i64;
        if wide < i32::MIN as i64 || wide > i32::MAX as i64 {
            None
        } else {
            Some(self.plus(other))
        }
    }
}

/// Two scalars stand for the same number only if they are the same scalar.
pub proof fn scalar_view_injective(a: Scalar, b: Scalar)
    ensures
        a@ == b@ <==> a == b,
{
}

} // verus!
