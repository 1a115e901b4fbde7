//! The mathematical model: vectors and 4x4 matrices over the real numbers.
//!
//! Nothing here is executable. The executable types of the crate are given
//! views into these types, and contracts are stated over them.

use vstd::prelude::*;

verus! {

/// A point or a vector of the plane.
pub struct RealVec2 {
    pub x: real,
    pub y: real,
}

/// A homogeneous 4-vector.
pub struct RealVec4 {
    pub x: real,
    pub y: real,
    pub z: real,
    pub w: real,
}

/// A 4x4 matrix, held by its rows.
pub struct RealMat4 {
    pub r0: RealVec4,
    pub r1: RealVec4,
    pub r2: RealVec4,
    pub r3: RealVec4,
}

pub open spec fn dot(a: RealVec4, b: RealVec4) -> real {
    a.x * b.x + a.y * b.y + a.z * b.z + a.w * b.w
}

pub open spec fn col0(m: RealMat4) -> RealVec4 {
    RealVec4 { x: m.r0.x, y: m.r1.x, z: m.r2.x, w: m.r3.x }
}

pub open spec fn col1(m: RealMat4) -> RealVec4 {
    RealVec4 { x: m.r0.y, y: m.r1.y, z: m.r2.y, w: m.r3.y }
}

pub open spec fn col2(m: RealMat4) -> RealVec4 {
    RealVec4 { x: m.r0.z, y: m.r1.z, z: m.r2.z, w: m.r3.z }
}

pub open spec fn col3(m: RealMat4) -> RealVec4 {
    RealVec4 { x: m.r0.w, y: m.r1.w, z: m.r2.w, w: m.r3.w }
}

/// The matrix-vector product `m * v`.
pub open spec fn mat_vec(m: RealMat4, v: RealVec4) -> RealVec4 {
    RealVec4 { x: dot(m.r0, v), y: dot(m.r1, v), z: dot(m.r2, v), w: dot(m.r3, v) }
}

/// The row vector `r` times the matrix `m`.
pub open spec fn row_mat(r: RealVec4, m: RealMat4) -> RealVec4 {
    RealVec4 { x: dot(r, col0(m)), y: dot(r, col1(m)), z: dot(r, col2(m)), w: dot(r, col3(m)) }
}

/// The matrix product `a * b`.
pub open spec fn mat_mul(a: RealMat4, b: RealMat4) -> RealMat4 {
    RealMat4 {
        r0: row_mat(a.r0, b),
        r1: row_mat(a.r1, b),
        r2: row_mat(a.r2, b),
        r3: row_mat(a.r3, b),
    }
}

#[verifier::inline]
pub open spec fn identity() -> RealMat4 {
    RealMat4 {
        r0: RealVec4 { x: 1real, y: 0real, z: 0real, w: 0real },
        r1: RealVec4 { x: 0real, y: 1real, z: 0real, w: 0real },
        r2: RealVec4 { x: 0real, y: 0real, z: 1real, w: 0real },
        r3: RealVec4 { x: 0real, y: 0real, z: 0real, w: 1real },
    }
}

/// The matrix that moves every point by `(x, y, z)`.
#[verifier::inline]
pub open spec fn translation(x: real, y: real, z: real) -> RealMat4 {
    RealMat4 {
        r0: RealVec4 { x: 1real, y: 0real, z: 0real, w: x },
        r1: RealVec4 { x: 0real, y: 1real, z: 0real, w: y },
        r2: RealVec4 { x: 0real, y: 0real, z: 1real, w: z },
        r3: RealVec4 { x: 0real, y: 0real, z: 0real, w: 1real },
    }
}

/// The rotation about the Z axis by the angle whose cosine is `c` and whose
/// sine is `s`, counter-clockwise seen from positive Z.
#[verifier::inline]
pub open spec fn rotation_z(c: real, s: real) -> RealMat4 {
    RealMat4 {
        r0: RealVec4 { x: c, y: -s, z: 0real, w: 0real },
        r1: RealVec4 { x: s, y: c, z: 0real, w: 0real },
        r2: RealVec4 { x: 0real, y: 0real, z: 1real, w: 0real },
        r3: RealVec4 { x: 0real, y: 0real, z: 0real, w: 1real },
    }
}

/// The point of the plane that a homogeneous vector stands for: its `x` and
/// `y` divided by its `w`.
pub open spec fn perspective_divide(v: RealVec4) -> RealVec2 {
    RealVec2 { x: v.x / v.w, y: v.y / v.w }
}

/// `n` is the Euclidean length of the vector `(x, y)`.
pub open spec fn is_norm(n: real, x: real, y: real) -> bool {
    n >= 0real && n * n == x * x + y * y
}

/// The product of two matrices, entry by entry.
pub proof fn lemma_mat_mul_entries(a: RealMat4, b: RealMat4)
    ensures
        mat_mul(a, b) == (RealMat4 {
            r0: RealVec4 {
                x: a.r0.x * b.r0.x + a.r0.y * b.r1.x + a.r0.z * b.r2.x + a.r0.w * b.r3.x,
                y: a.r0.x * b.r0.y + a.r0.y * b.r1.y + a.r0.z * b.r2.y + a.r0.w * b.r3.y,
                z: a.r0.x * b.r0.z + a.r0.y * b.r1.z + a.r0.z * b.r2.z + a.r0.w * b.r3.z,
                w: a.r0.x * b.r0.w + a.r0.y * b.r1.w + a.r0.z * b.r2.w + a.r0.w * b.r3.w,
            },
            r1: RealVec4 {
                x: a.r1.x * b.r0.x + a.r1.y * b.r1.x + a.r1.z * b.r2.x + a.r1.w * b.r3.x,
                y: a.r1.x * b.r0.y + a.r1.y * b.r1.y + a.r1.z * b.r2.y + a.r1.w * b.r3.y,
                z: a.r1.x * b.r0.z + a.r1.y * b.r1.z + a.r1.z * b.r2.z + a.r1.w * b.r3.z,
                w: a.r1.x * b.r0.w + a.r1.y * b.r1.w + a.r1.z * b.r2.w + a.r1.w * b.r3.w,
            },
            r2: RealVec4 {
                x: a.r2.x * b.r0.x + a.r2.y * b.r1.x + a.r2.z * b.r2.x + a.r2.w * b.r3.x,
                y: a.r2.x * b.r0.y + a.r2.y * b.r1.y + a.r2.z * b.r2.y + a.r2.w * b.r3.y,
                z: a.r2.x * b.r0.z + a.r2.y * b.r1.z + a.r2.z * b.r2.z + a.r2.w * b.r3.z,
                w: a.r2.x * b.r0.w + a.r2.y * b.r1.w + a.r2.z * b.r2.w + a.r2.w * b.r3.w,
            },
            r3: RealVec4 {
                x: a.r3.x * b.r0.x + a.r3.y * b.r1.x + a.r3.z * b.r2.x + a.r3.w * b.r3.x,
                y: a.r3.x * b.r0.y + a.r3.y * b.r1.y + a.r3.z * b.r2.y + a.r3.w * b.r3.y,
                z: a.r3.x * b.r0.z + a.r3.y * b.r1.z + a.r3.z * b.r2.z + a.r3.w * b.r3.z,
                w: a.r3.x * b.r0.w + a.r3.y * b.r1.w + a.r3.z * b.r2.w + a.r3.w * b.r3.w,
            },
        }),
{
}

/// The product of a matrix and a vector, entry by entry.
pub proof fn lemma_mat_vec_entries(m: RealMat4, v: RealVec4)
    ensures
        mat_vec(m, v) == (RealVec4 {
            x: m.r0.x * v.x + m.r0.y * v.y + m.r0.z * v.z + m.r0.w * v.w,
            y: m.r1.x * v.x + m.r1.y * v.y + m.r1.z * v.z + m.r1.w * v.w,
            z: m.r2.x * v.x + m.r2.y * v.y + m.r2.z * v.z + m.r2.w * v.w,
            w: m.r3.x * v.x + m.r3.y * v.y + m.r3.z * v.z + m.r3.w * v.w,
        }),
{
}

} // verus!
