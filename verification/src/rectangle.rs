//! Axis-parallel rectangles of the plane.

use vstd::prelude::*;
use crate::linalg::RealVec2;
use crate::point::Point2;
use crate::scalar::Scalar;

verus! {

/// A rectangle, given by its lower left corner and its size.
#[derive(Clone, Copy, Debug, PartialEq, Eq, Structural)]
pub struct Rect {
    pub min: Point2,
    pub width: Scalar,
    pub height: Scalar,
}

impl Rect {
    /// All four corners can be held as points.
    pub open spec fn wf(&self) -> bool {
        &&& Scalar::fits(self.min.x.raw + self.width.raw)
        &&& Scalar::fits(self.min.y.raw + self.height.raw)
    }

    pub fn new(min: Point2, width: Scalar, height: Scalar) -> (r: Rect)
        ensures
            r.min == min,
            r.width == width,
            r.height == height,
    {
        Rect { min, width, height }
    }

    pub fn bottom_left(&self) -> (p: Point2)
        ensures
            p == self.min,
    {
        self.min
    }

    pub fn bottom_right(&self) -> (p: Point2)
        requires
            Scalar::fits(self.min.x.raw + self.width.raw),
        ensures
            p.x.raw == self.min.x.raw + self.width.raw,
            p.y == self.min.y,
            p@ == (RealVec2 { x: self.min@.x + self.width@, y: self.min@.y }),
    {
        Point2 { x: self.min.x.plus(self.width), y: self.min.y }
    }

    pub fn top_left(&self) -> (p: Point2)
        requires
            Scalar::fits(self.min.y.raw + self.height.raw),
        ensures
            p.x == self.min.x,
            p.y.raw == self.min.y.raw + self.height.raw,
            p@ == (RealVec2 { x: self.min@.x, y: self.min@.y + self.height@ }),
    {
        Point2 { x: self.min.x, y: self.min.y.plus(self.height) }
    }

    pub fn top_right(&self) -> (p: Point2)
        requires
            self.wf(),
        ensures
            p.x.raw == self.min.x.raw + self.width.raw,
            p.y.raw == self.min.y.raw + self.height.raw,
            p@ == (RealVec2 { x: self.min@.x + self.width@, y: self.min@.y + self.height@ }),
    {
        Point2 { x: self.min.x.plus(self.width), y: self.min.y.plus(self.height) }
    }
}

} // verus!
