//! Homogeneous vectors and 4x4 matrices of exact fractions.

use vstd::prelude::*;
use crate::linalg::{RealMat4, RealVec4};
use crate::rational::Rational;

verus! {

/// A homogeneous 4-vector; as part of a matrix, one of its rows.
#[derive(Clone, Copy, Debug)]
pub struct Vec4 {
    pub x: Rational,
    pub y: Rational,
    pub z: Rational,
    pub w: Rational,
}

/// A 4x4 matrix, held by its rows.
#[derive(Clone, Copy, Debug)]
pub struct Mat4 {
    pub r0: Vec4,
    pub r1: Vec4,
    pub r2: Vec4,
    pub r3: Vec4,
}

impl Vec4 {
    pub open spec fn wf(&self) -> bool {
        self.x.wf() && self.y.wf() && self.z.wf() && self.w.wf()
    }

    pub open spec fn view(&self) -> RealVec4 {
        RealVec4 { x: self.x@, y: self.y@, z: self.z@, w: self.w@ }
    }

    /// The row of four whole numbers.
    pub fn from_ints(x: i64, y: i64, z: i64, w: i64) -> (v: Vec4)
        ensures
            v.wf(),
            v@ == (RealVec4 { x: x as real, y: y as real, z: z as real, w: w as real }),
    {
        Vec4 {
            x: Rational::from_int(x),
            y: Rational::from_int(y),
            z: Rational::from_int(z),
            w: Rational::from_int(w),
        }
    }
}

impl Mat4 {
    pub open spec fn wf(&self) -> bool {
        self.r0.wf() && self.r1.wf() && self.r2.wf() && self.r3.wf()
    }

    pub open spec fn view(&self) -> RealMat4 {
        RealMat4 { r0: self.r0@, r1: self.r1@, r2: self.r2@, r3: self.r3@ }
    }
}

} // verus!
