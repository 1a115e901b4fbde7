//! The camera: its pose, the matrices derived from it, and the mappings
//! between the world plane and the screen.

pub mod exact;
pub mod model;
pub mod projection;

use vstd::prelude::*;
use crate::angle::{angle_on_unit_circle, Angle};
use crate::camera::exact::{
    lemma_extent_fraction, lemma_frustum_fractions, lemma_offset_fraction, lemma_screen_fraction,
    lemma_turn_product, lemma_world_fraction,
};
use crate::camera::model::{
    frustum_scale, frustum_unscale, lemma_screen_to_world_closed, lemma_view_entries,
    lemma_view_inverse_entries, lemma_world_to_screen_closed, screen_to_world_model, turn_x,
    turn_y, view_inverse_model, view_model, world_to_screen_model, Pose,
};
use crate::camera::projection::{far_plane, fov_angle, fov_tan, near_plane, ortho_model};
use crate::ints::{lemma_product_bound, lemma_product_positive};
use crate::linalg::{identity, is_norm, mat_mul, RealVec2};
use crate::matrix::{Mat4, Vec4};
use crate::point::{ExactPoint2, ExactVector2, Point2, Vector2};
use crate::rational::Rational;
use crate::reals::{lemma_cast_mul, lemma_div_is, lemma_div_neg, lemma_mul_assoc, lemma_mul_neg};
use crate::scalar::Scalar;

pub use crate::camera::projection::{
    inverse_perspective, orthographic, perspective, perspective_z,
};

verus! {

/// How far the camera stands above the world plane at zoom zero: 800, in
/// ten-thousandths.
pub const BASE_DISTANCE_RAW: i32 = 8_000_000;

/// The largest zoom: it leaves the camera one ten-thousandth above the
/// plane.
pub const ZOOM_MAX_RAW: i32 = 7_999_999;

/// The smallest zoom: it puts the camera as far above the plane as a scalar
/// can say.
pub const ZOOM_MIN_RAW: i32 = -2_139_483_647;

/// The zoom nearest to `raw` that keeps the camera's distance from the plane
/// a positive scalar.
pub open spec fn clamp_zoom(raw: int) -> int {
    if raw < ZOOM_MIN_RAW {
        ZOOM_MIN_RAW as int
    } else if raw > ZOOM_MAX_RAW {
        ZOOM_MAX_RAW as int
    } else {
        raw
    }
}

/// A 2D camera: it looks down the Z axis at the world plane.
#[derive(Clone, Copy, Debug, PartialEq, Eq, Structural)]
pub struct Camera {
    /// The point of the world plane at the center of the view.
    pub focus_pt: Point2,
    /// The width of the viewport in pixels.
    pub width: u32,
    /// The height of the viewport in pixels.
    pub height: u32,
    /// The rotation of the view about the Z axis.
    pub rotation: Angle,
    /// By how much the camera has come nearer to the plane.
    pub zoom: Scalar,
}

impl Default for Camera {
    /// The camera at the origin, unturned, at zoom zero, with a viewport of
    /// one pixel.
    fn default() -> (cam: Camera)
        ensures
            cam.wf(),
            cam.focus_pt == (Point2 { x: Scalar { raw: 0 }, y: Scalar { raw: 0 } }),
            cam.rotation == (Angle { p: 0, q: 1 }),
            cam.zoom == (Scalar { raw: 0 }),
            cam.width == 1,
            cam.height == 1,
    {
        Camera {
            focus_pt: Point2::origin(),
            rotation: Angle::zero(),
            zoom: Scalar::zero(),
            width: 1,
            height: 1,
        }
    }
}

impl Camera {
    /// The viewport is not empty, the rotation is an angle, and the camera
    /// stands above the plane at a distance that a scalar can say.
    pub open spec fn wf(&self) -> bool {
        &&& self.width > 0
        &&& self.height > 0
        &&& self.rotation.wf()
        &&& ZOOM_MIN_RAW <= self.zoom.raw <= ZOOM_MAX_RAW
    }

    /// How far the camera stands above the world plane.
    pub open spec fn distance(&self) -> real {
        ((BASE_DISTANCE_RAW - self.zoom.raw) as real) / 10000real
    }

    /// The camera's pose, as mathematics.
    pub open spec fn pose(&self) -> Pose {
        Pose {
            focus: self.focus_pt@,
            cos: self.rotation.cos(),
            sin: self.rotation.sin(),
            distance: self.distance(),
        }
    }

    /// The camera at the origin, unturned, at zoom zero.
    pub fn new(width: u32, height: u32) -> (cam: Camera)
        requires
            width > 0,
            height > 0,
        ensures
            cam.wf(),
            cam.focus_pt == (Point2 { x: Scalar { raw: 0 }, y: Scalar { raw: 0 } }),
            cam.rotation == (Angle { p: 0, q: 1 }),
            cam.zoom == (Scalar { raw: 0 }),
            cam.width == width,
            cam.height == height,
    {
        let mut cam = Camera {
            focus_pt: Point2::origin(),
            rotation: Angle::zero(),
            zoom: Scalar::zero(),
            width,
            height,
        };
        cam.resize(width, height);
        cam
    }

    /// Gives the viewport a new size and hands the camera back.
    pub fn resize(&mut self, width: u32, height: u32) -> (cam: &mut Camera)
        requires
            width > 0,
            height > 0,
        ensures
            *cam == (Camera { width, height, ..*old(self) }),
            *final(self) == *final(cam),
    {
        self.width = width;
        self.height = height;
        self
    }

    /// Brings the camera nearer to the plane by `dist`, as far as its
    /// distance stays a positive scalar.
    pub fn zoom(&mut self, dist: Scalar)
        ensures
            final(self).zoom.raw == clamp_zoom(old(self).zoom.raw + dist.raw),
            *final(self) == (Camera { zoom: final(self).zoom, ..*old(self) }),
    {
        let sum: i64 = self.zoom.raw as i64 + dist.raw as i64;
        self.zoom = Scalar { raw: Self::clamped(sum) };
    }

    /// Sets the zoom to `level`, as far as the camera's distance stays a
    /// positive scalar.
    pub fn set_zoom(&mut self, level: Scalar)
        ensures
            final(self).zoom.raw == clamp_zoom(level.raw as int),
            *final(self) == (Camera { zoom: final(self).zoom, ..*old(self) }),
    {
        self.zoom = Scalar { raw: Self::clamped(level.raw as i64) };
    }

    fn clamped(raw: i64) -> (r: i32)
        ensures
            r == clamp_zoom(raw as int),
    {
        if raw < ZOOM_MIN_RAW as i64 {
            ZOOM_MIN_RAW
        } else if raw > ZOOM_MAX_RAW as i64 {
            ZOOM_MAX_RAW
        } else {
            raw as i32
        }
    }

    /// Moves the focus by `delta` and levels the view.
    pub fn shift_focus(&mut self, delta: Vector2)
        requires
            Scalar::fits(old(self).focus_pt.x.raw + delta.x.raw),
            Scalar::fits(old(self).focus_pt.y.raw + delta.y.raw),
        ensures
            final(self).focus_pt.x.raw == old(self).focus_pt.x.raw + delta.x.raw,
            final(self).focus_pt.y.raw == old(self).focus_pt.y.raw + delta.y.raw,
            final(self).rotation == (Angle { p: 0, q: 1 }),
            *final(self) == (Camera {
                focus_pt: final(self).focus_pt,
                rotation: final(self).rotation,
                ..*old(self)
            }),
    {
        let target = self.focus_pt.plus(delta);
        self.look_at(target, Angle::zero());
    }

    /// Puts the focus at `pt` and turns the view to `angle`, whatever they
    /// were before.
    pub fn look_at(&mut self, pt: Point2, angle: Angle)
        ensures
            final(self).focus_pt == pt,
            final(self).rotation == angle,
            *final(self) == (Camera { focus_pt: pt, rotation: angle, ..*old(self) }),
    {
        self.focus_pt = pt;
        self.rotation = angle;
    }

    /// How far the camera stands above the world plane.
    pub fn effective_distance(&self) -> (d: Scalar)
        requires
            ZOOM_MIN_RAW <= self.zoom.raw <= ZOOM_MAX_RAW,
        ensures
            d.raw == BASE_DISTANCE_RAW - self.zoom.raw,
            d.raw > 0,
            d@ == self.distance(),
    {
        Scalar { raw: BASE_DISTANCE_RAW - self.zoom.raw }
    }

    /// The camera's perspective matrix.
    pub fn projection(&self) -> (m: Mat4)
        ensures
            m.wf(),
            m@ == model::projection_model(),
    {
        perspective(fov_angle(), near_plane(), far_plane())
    }

    /// The inverse of the camera's perspective matrix.
    pub fn projection_inverse(&self) -> (m: Mat4)
        ensures
            m.wf(),
            m@ == model::projection_inverse_model(),
            mat_mul(model::projection_model(), m@) == identity(),
            mat_mul(m@, model::projection_model()) == identity(),
    {
        proof {
            model::projection_inverse_law();
        }
        inverse_perspective(fov_angle(), near_plane(), far_plane())
    }

    /// The orthographic projection of the camera's viewport.
    pub fn orthographic(&self) -> (m: Mat4)
        requires
            self.width > 0,
            self.height > 0,
        ensures
            m.wf(),
            m@ == ortho_model(
                0real,
                self.width as real,
                0real,
                self.height as real,
                -10real,
                10real,
            ),
    {
        orthographic(self.width, self.height)
    }

    /// The view matrix: from the world to the camera.
    pub fn view(&self) -> (m: Mat4)
        requires
            self.wf(),
        ensures
            m.wf(),
            m@ == view_model(self.pose()),
    {
        let (a, b, h) = self.rotation.parts();
        let a: i128 = a as i128;
        let b: i128 = b as i128;
        let h: i128 = h as i128;
        let fx: i128 = self.focus_pt.x.raw as i128;
        let fy: i128 = self.focus_pt.y.raw as i128;
        let d: i128 = BASE_DISTANCE_RAW as i128 - self.zoom.raw as i128;
        proof {
            lemma_product_bound(a as int, fx as int, 0x4000_0000, 0x8000_0000);
            lemma_product_bound(b as int, fy as int, 0x8000_0000, 0x8000_0000);
            lemma_product_bound(b as int, fx as int, 0x8000_0000, 0x8000_0000);
            lemma_product_bound(a as int, fy as int, 0x4000_0000, 0x8000_0000);
        }
        let tx = Rational::new(-(a * fx - b * fy), h * 10000);
        let ty = Rational::new(-(b * fx + a * fy), h * 10000);
        let cos = Rational::new(a, h);
        let sin = Rational::new(b, h);
        let minus_sin = Rational::new(-b, h);
        let tz = Rational::new(-d, 10000);
        proof {
            let p = self.pose();
            lemma_view_entries(p);
            lemma_turn_product(a as int, b as int, h as int, fx as int, fy as int, 10000);
            let h4 = (h as real) * 10000real;
            let ux = turn_x(p.cos, p.sin, p.focus.x, p.focus.y);
            let uy = turn_y(p.cos, p.sin, p.focus.x, p.focus.y);
            lemma_mul_neg(ux, h4);
            lemma_mul_neg(uy, h4);
            lemma_div_is((-(a * fx - b * fy)) as real, h4, -ux);
            lemma_div_is((-(b * fx + a * fy)) as real, h4, -uy);
            lemma_div_neg(b as real, h as real);
        }
        Mat4 {
            r0: Vec4 { x: cos, y: minus_sin, z: Rational::from_int(0), w: tx },
            r1: Vec4 { x: sin, y: cos, z: Rational::from_int(0), w: ty },
            r2: Vec4 {
                x: Rational::from_int(0),
                y: Rational::from_int(0),
                z: Rational::from_int(1),
                w: tz,
            },
            r3: Vec4::from_ints(0, 0, 0, 1),
        }
    }

    /// The inverse of the view matrix: from the camera to the world.
    pub fn view_inverse(&self) -> (m: Mat4)
        requires
            self.wf(),
        ensures
            m.wf(),
            m@ == view_inverse_model(self.pose()),
            mat_mul(view_model(self.pose()), m@) == identity(),
            mat_mul(m@, view_model(self.pose())) == identity(),
    {
        let (a, b, h) = self.rotation.parts();
        let a: i128 = a as i128;
        let b: i128 = b as i128;
        let h: i128 = h as i128;
        let d: i128 = BASE_DISTANCE_RAW as i128 - self.zoom.raw as i128;
        let cos = Rational::new(a, h);
        let sin = Rational::new(b, h);
        let minus_sin = Rational::new(-b, h);
        let tx = Rational::new(self.focus_pt.x.raw as i128, 10000);
        let ty = Rational::new(self.focus_pt.y.raw as i128, 10000);
        let tz = Rational::new(d, 10000);
        proof {
            lemma_view_inverse_entries(self.pose());
            lemma_div_neg(b as real, h as real);
            camera_view_inverse(*self);
        }
        Mat4 {
            r0: Vec4 { x: cos, y: sin, z: Rational::from_int(0), w: tx },
            r1: Vec4 { x: minus_sin, y: cos, z: Rational::from_int(0), w: ty },
            r2: Vec4 {
                x: Rational::from_int(0),
                y: Rational::from_int(0),
                z: Rational::from_int(1),
                w: tz,
            },
            r3: Vec4::from_ints(0, 0, 0, 1),
        }
    }

    /// Where on the screen, in normalized device coordinates, the point `pt`
    /// of the world plane is seen, in lowest terms.
    ///
    /// The result is computed in one step, as the offset of the point from
    /// the focus, turned, times 13860 / 5741 (one over the tangent of half
    /// the field of view), over the distance; the contract says that this is
    /// what the projection matrix times the view matrix make of the point.
    pub fn world_to_screen(&self, pt: ExactPoint2) -> (r: ExactPoint2)
        requires
            self.wf(),
            pt.bounded(),
        ensures
            r.wf(),
            r.common_divisor() == 1,
            r@ == world_to_screen_model(self.pose(), pt@),
            screen_to_world_model(self.pose(), r@) == pt@,
            ({
                let p = self.pose();
                let reach = fov_tan() * p.distance;
                let rx = turn_x(p.cos, p.sin, pt@.x - p.focus.x, pt@.y - p.focus.y);
                let ry = turn_y(p.cos, p.sin, pt@.x - p.focus.x, pt@.y - p.focus.y);
                -reach <= rx <= reach && -reach <= ry <= reach ==> -1real <= r@.x <= 1real
                    && -1real <= r@.y <= 1real
            }),
    {
        let (a, b, h) = self.rotation.parts();
        let a: i128 = a as i128;
        let b: i128 = b as i128;
        let h: i128 = h as i128;
        let d: i128 = BASE_DISTANCE_RAW as i128 - self.zoom.raw as i128;
        let fx: i128 = self.focus_pt.x.raw as i128;
        let fy: i128 = self.focus_pt.y.raw as i128;
        proof {
            lemma_product_bound(fx as int, pt.w as int, 0x8000_0000, 0x1_0000_0000_0000);
            lemma_product_bound(fy as int, pt.w as int, 0x8000_0000, 0x1_0000_0000_0000);
        }
        let dx: i128 = pt.x * 10000 - fx * pt.w;
        let dy: i128 = pt.y * 10000 - fy * pt.w;
        proof {
            let offset = 0x1_0000_0000_0000int * 10000 + 0x8000_0000 * 0x1_0000_0000_0000;
            lemma_product_bound(a as int, dx as int, 0x4000_0000, offset);
            lemma_product_bound(b as int, dy as int, 0x8000_0000, offset);
            lemma_product_bound(b as int, dx as int, 0x8000_0000, offset);
            lemma_product_bound(a as int, dy as int, 0x4000_0000, offset);
            lemma_product_bound(h as int, pt.w as int, 0x8000_0000, 0x1_0000_0000_0000);
            lemma_product_positive(h as int, pt.w as int);
            lemma_product_bound(
                (h * pt.w) * 5741,
                d as int,
                (0x8000_0000int * 0x1_0000_0000_0000) * 5741,
                0x1_0000_0000,
            );
            lemma_product_positive((h * pt.w) * 5741, d as int);
        }
        let nx: i128 = a * dx - b * dy;
        let ny: i128 = b * dx + a * dy;
        let den: i128 = ((h * pt.w) * 5741) * d;
        proof {
            let p = self.pose();
            let k = frustum_scale();
            let rx = turn_x(p.cos, p.sin, pt@.x - p.focus.x, pt@.y - p.focus.y);
            let ry = turn_y(p.cos, p.sin, pt@.x - p.focus.x, pt@.y - p.focus.y);
            lemma_world_to_screen_closed(p, pt@);
            lemma_frustum_fractions();
            lemma_offset_fraction(pt.x as int, pt.w as int, fx as int);
            lemma_offset_fraction(pt.y as int, pt.w as int, fy as int);
            lemma_turn_product(a as int, b as int, h as int, dx as int, dy as int, pt.w * 10000);
            lemma_cast_mul(h as int, pt.w as int);
            lemma_mul_assoc(h as real, pt.w as real, 10000real);
            lemma_cast_mul((h * pt.w) * 5741, d as int);
            lemma_screen_fraction(k, rx, p.distance, nx as real, (h * pt.w) as real, d as real);
            lemma_screen_fraction(k, ry, p.distance, ny as real, (h * pt.w) as real, d as real);
            camera_round_trip(*self, pt@);
            let reach = fov_tan() * p.distance;
            if -reach <= rx <= reach && -reach <= ry <= reach {
                camera_pose_valid(*self);
                model::screen_containment_law(p, pt@);
            }
        }
        ExactPoint2 { x: nx * 13860, y: ny * 13860, w: den }.reduce()
    }

    /// The point of the world plane that is seen at the point `pt` of the
    /// screen, given in normalized device coordinates, in lowest terms.
    ///
    /// The result is computed in one step, as the screen point turned back,
    /// times 5741 / 13860 (the tangent of half the field of view) and the
    /// distance, moved by the focus; the contract says that this is what the
    /// inverse view matrix times the inverse projection matrix make of the
    /// screen point at the depth of the world plane.
    pub fn screen_to_world(&self, pt: ExactPoint2) -> (r: ExactPoint2)
        requires
            self.wf(),
            pt.bounded(),
        ensures
            r.wf(),
            r.common_divisor() == 1,
            r@ == screen_to_world_model(self.pose(), pt@),
            world_to_screen_model(self.pose(), r@) == pt@,
    {
        let (a, b, h) = self.rotation.parts();
        let a: i128 = a as i128;
        let b: i128 = b as i128;
        let h: i128 = h as i128;
        let d: i128 = BASE_DISTANCE_RAW as i128 - self.zoom.raw as i128;
        let fx: i128 = self.focus_pt.x.raw as i128;
        let fy: i128 = self.focus_pt.y.raw as i128;
        proof {
            lemma_product_bound(a as int, pt.x as int, 0x4000_0000, 0x1_0000_0000_0000);
            lemma_product_bound(b as int, pt.y as int, 0x8000_0000, 0x1_0000_0000_0000);
            lemma_product_bound(b as int, pt.x as int, 0x8000_0000, 0x1_0000_0000_0000);
            lemma_product_bound(a as int, pt.y as int, 0x4000_0000, 0x1_0000_0000_0000);
            lemma_product_bound(h as int, pt.w as int, 0x8000_0000, 0x1_0000_0000_0000);
            lemma_product_positive(h as int, pt.w as int);
        }
        let qx: i128 = a * pt.x + b * pt.y;
        let qy: i128 = a * pt.y - b * pt.x;
        let m: i128 = h * pt.w;
        let side: i128 = 13860 * m;
        proof {
            lemma_product_bound(
                d as int,
                5741 * qx,
                0x1_0000_0000,
                5741int * ((0x4000_0000 + 0x8000_0000) * 0x1_0000_0000_0000),
            );
            lemma_product_bound(
                d as int,
                5741 * qy,
                0x1_0000_0000,
                5741int * ((0x4000_0000 + 0x8000_0000) * 0x1_0000_0000_0000),
            );
            lemma_product_bound(
                fx as int,
                side as int,
                0x8000_0000,
                13860int * (0x8000_0000 * 0x1_0000_0000_0000),
            );
            lemma_product_bound(
                fy as int,
                side as int,
                0x8000_0000,
                13860int * (0x8000_0000 * 0x1_0000_0000_0000),
            );
        }
        let den: i128 = 10000 * side;
        let x: i128 = d * (5741 * qx) + fx * side;
        let y: i128 = d * (5741 * qy) + fy * side;
        proof {
            let p = self.pose();
            let j = frustum_unscale();
            let ux = turn_x(p.cos, -p.sin, pt@.x, pt@.y);
            let uy = turn_y(p.cos, -p.sin, pt@.x, pt@.y);
            lemma_screen_to_world_closed(p, pt@);
            lemma_frustum_fractions();
            lemma_div_neg(b as real, h as real);
            lemma_turn_product(a as int, -b, h as int, pt.x as int, pt.y as int, pt.w as int);
            assert(a * pt.x - (-b) * pt.y == qx) by {
                lemma_mul_neg_int(b as int, pt.y as int);
            }
            assert((-b) * pt.x + a * pt.y == qy) by {
                lemma_mul_neg_int(b as int, pt.x as int);
            }
            lemma_cast_mul(h as int, pt.w as int);
            lemma_cast_mul(d as int, 5741 * qx);
            lemma_cast_mul(d as int, 5741 * qy);
            lemma_cast_mul(fx as int, side as int);
            lemma_cast_mul(fy as int, side as int);
            lemma_world_fraction(
                p.distance,
                j,
                ux,
                p.focus.x,
                qx as real,
                m as real,
                d as real,
                fx as real,
            );
            lemma_world_fraction(
                p.distance,
                j,
                uy,
                p.focus.y,
                qy as real,
                m as real,
                d as real,
                fy as real,
            );
            camera_round_trip(*self, pt@);
        }
        ExactPoint2 { x, y, w: den }.reduce()
    }

    /// The width and the height of the part of the world plane that the
    /// camera sees: how far apart the points of the plane lie that are seen
    /// at the middles of the left and the right edge of the screen, and at
    /// the middles of its lower and its upper edge. The argument is not
    /// used: the plane is always measured at the camera's own distance.
    pub fn world_plane_dim(&self, _z: Scalar) -> (r: ExactVector2)
        requires
            self.wf(),
        ensures
            r.wf(),
            ({
                let p = self.pose();
                let left = screen_to_world_model(p, RealVec2 { x: -1real, y: 0real });
                let right = screen_to_world_model(p, RealVec2 { x: 1real, y: 0real });
                let bottom = screen_to_world_model(p, RealVec2 { x: 0real, y: -1real });
                let top = screen_to_world_model(p, RealVec2 { x: 0real, y: 1real });
                &&& is_norm(r@.x, right.x - left.x, right.y - left.y)
                &&& is_norm(r@.y, top.x - bottom.x, top.y - bottom.y)
            }),
    {
        let d: i128 = BASE_DISTANCE_RAW as i128 - self.zoom.raw as i128;
        let extent = Rational::new(2 * (d * 5741), 10000 * 13860);
        proof {
            let p = self.pose();
            camera_pose_valid(*self);
            lemma_frustum_fractions();
            lemma_extent_fraction(p.distance, frustum_unscale(), d as real);
            model::lemma_visible_extent(p);
        }
        ExactVector2 { x: extent, y: extent }
    }
}

proof fn lemma_mul_neg_int(x: int, y: int)
    ensures
        (-x) * y == -(x * y),
{
    vstd::arithmetic::mul::lemma_mul_unary_negation(x, y);
}

/// Every point of the world plane is where the camera sees its own screen
/// point: for a well-formed camera `screen_to_world` undoes `world_to_screen`
/// exactly, and `world_to_screen` undoes `screen_to_world`.
pub proof fn camera_round_trip(cam: Camera, pt: RealVec2)
    requires
        cam.wf(),
    ensures
        screen_to_world_model(cam.pose(), world_to_screen_model(cam.pose(), pt)) == pt,
        world_to_screen_model(cam.pose(), screen_to_world_model(cam.pose(), pt)) == pt,
{
    camera_pose_valid(cam);
    model::round_trip_law(cam.pose(), pt);
    model::round_trip_from_screen_law(cam.pose(), pt);
}

/// For a well-formed camera `view_inverse` is the inverse of `view`.
pub proof fn camera_view_inverse(cam: Camera)
    requires
        cam.wf(),
    ensures
        mat_mul(view_model(cam.pose()), view_inverse_model(cam.pose())) == identity(),
        mat_mul(view_inverse_model(cam.pose()), view_model(cam.pose())) == identity(),
{
    camera_pose_valid(cam);
    model::view_inverse_law(cam.pose());
}

/// A well-formed camera has a valid pose.
pub proof fn camera_pose_valid(cam: Camera)
    requires
        cam.wf(),
    ensures
        cam.pose().valid(),
{
    angle_on_unit_circle(cam.rotation);
}

} // verus!
