//! A 2D virtual camera with exact arithmetic.
//!
//! The camera looks down the Z axis at the world plane `z = 0`. Its pose (focus
//! point, in-plane rotation, zoom) determines a view matrix; a fixed perspective
//! frustum determines the projection. Every matrix and every mapped point is
//! computed as an exact fraction, so that the unprojection is the exact inverse
//! of the projection, which is proved here rather than tested.
//!
//! - `scalar`, `angle`, `point`: what a pose is made of. A scalar is a number
//!   of four decimal places; an angle is held by the tangent of its half, a
//!   fraction, so that its cosine and sine are fractions too.
//! - `rational`, `matrix`: what the camera answers with.
//! - `linalg`: vectors and matrices over the real numbers, in which the
//!   contracts are stated.
//! - `camera`: the camera, its model over the real numbers and the laws of
//!   that model.
//! - `reals`, `ints`: the arithmetic that the proofs are put together from.
//! - `rectangle`, `buffer`, `texture`: rectangles, and the kinds of buffer
//!   and of texture of the graphics API.

pub mod angle;
pub mod buffer;
pub mod camera;
pub mod ints;
pub mod linalg;
pub mod matrix;
pub mod point;
pub mod rational;
pub mod reals;
pub mod rectangle;
pub mod scalar;
pub mod texture;

