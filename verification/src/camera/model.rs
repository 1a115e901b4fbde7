//! The camera as mathematics: poses, the view matrix and its inverse, and
//! the mappings between the world plane and the screen, over the real
//! numbers.

use vstd::prelude::*;
use crate::camera::projection::{
    far, fov_tan, inverse_perspective_model, lemma_perspective_z_closed, near,
    perspective_inverse_law, perspective_model, perspective_z_model,
};
use crate::linalg::{
    identity, is_norm, lemma_mat_mul_entries, lemma_mat_vec_entries, mat_mul, mat_vec,
    perspective_divide, rotation_z, translation, RealMat4, RealVec2, RealVec4,
};
use crate::reals::{
    lemma_div_is, lemma_div_le, lemma_div_mul, lemma_div_neg, lemma_factors_nonzero,
    lemma_mul_assoc, lemma_mul_by_one, lemma_mul_by_zero, lemma_mul_cancel, lemma_mul_comm,
    lemma_mul_distributes, lemma_mul_le, lemma_mul_neg, lemma_mul_nonzero, lemma_mul_pair,
    lemma_mul_positive, lemma_mul_swap,
};

verus! {

/// Where the camera stands and how it is turned.
pub struct Pose {
    /// The point of the world plane at the center of the view.
    pub focus: RealVec2,
    /// The cosine of the rotation of the view about the Z axis.
    pub cos: real,
    /// The sine of that rotation.
    pub sin: real,
    /// How far the camera stands above the world plane.
    pub distance: real,
}

impl Pose {
    /// A pose is valid when its cosine and sine lie on the unit circle and
    /// the camera stands strictly above the plane.
    pub open spec fn valid(&self) -> bool {
        self.cos * self.cos + self.sin * self.sin == 1real && self.distance > 0real
    }
}

/// World to camera: move the focus to the origin and the scene down the Z
/// axis by the distance, then rotate.
pub open spec fn view_model(p: Pose) -> RealMat4 {
    mat_mul(rotation_z(p.cos, p.sin), translation(-p.focus.x, -p.focus.y, -p.distance))
}

/// Camera to world: rotate back, then move back.
pub open spec fn view_inverse_model(p: Pose) -> RealMat4 {
    mat_mul(translation(p.focus.x, p.focus.y, p.distance), rotation_z(p.cos, -p.sin))
}

/// The camera's fixed perspective frustum.
#[verifier::inline]
pub open spec fn projection_model() -> RealMat4 {
    perspective_model(fov_tan(), near(), far())
}

#[verifier::inline]
pub open spec fn projection_inverse_model() -> RealMat4 {
    inverse_perspective_model(fov_tan(), near(), far())
}

/// A point of the world plane as a homogeneous vector.
#[verifier::inline]
pub open spec fn on_world_plane(pt: RealVec2) -> RealVec4 {
    RealVec4 { x: pt.x, y: pt.y, z: 0real, w: 1real }
}

/// Where on the screen, in normalized device coordinates, a point of the
/// world plane is seen.
pub open spec fn world_to_screen_model(p: Pose, pt: RealVec2) -> RealVec2 {
    perspective_divide(mat_vec(mat_mul(projection_model(), view_model(p)), on_world_plane(pt)))
}

/// The depth, after the perspective divide, at which the world plane is seen.
pub open spec fn world_plane_depth(p: Pose) -> real {
    perspective_z_model(near(), far(), -p.distance)
}

/// The point of the world plane that is seen at a point of the screen.
pub open spec fn screen_to_world_model(p: Pose, pt: RealVec2) -> RealVec2 {
    perspective_divide(
        mat_vec(
            mat_mul(view_inverse_model(p), projection_inverse_model()),
            RealVec4 { x: pt.x, y: pt.y, z: world_plane_depth(p), w: 1real },
        ),
    )
}

/// The first coordinate of the vector `(x, y)` turned by the rotation with
/// cosine `c` and sine `s`.
pub open spec fn turn_x(c: real, s: real, x: real, y: real) -> real {
    c * x - s * y
}

/// The second coordinate of the turned vector.
pub open spec fn turn_y(c: real, s: real, x: real, y: real) -> real {
    s * x + c * y
}

/// The motion that turns about the Z axis by the rotation with cosine `c`
/// and sine `s` and then moves by `(tx, ty, tz)`.
#[verifier::inline]
pub open spec fn rigid_z(c: real, s: real, tx: real, ty: real, tz: real) -> RealMat4 {
    RealMat4 {
        r0: RealVec4 { x: c, y: -s, z: 0real, w: tx },
        r1: RealVec4 { x: s, y: c, z: 0real, w: ty },
        r2: RealVec4 { x: 0real, y: 0real, z: 1real, w: tz },
        r3: RealVec4 { x: 0real, y: 0real, z: 0real, w: 1real },
    }
}

/// The view matrix, entry by entry.
pub proof fn lemma_view_entries(p: Pose)
    ensures
        view_model(p) == rigid_z(
            p.cos,
            p.sin,
            -turn_x(p.cos, p.sin, p.focus.x, p.focus.y),
            -turn_y(p.cos, p.sin, p.focus.x, p.focus.y),
            -p.distance,
        ),
{
    lemma_mat_mul_entries(
        rotation_z(p.cos, p.sin),
        translation(-p.focus.x, -p.focus.y, -p.distance),
    );
    lemma_mul_neg(p.cos, p.focus.x);
    lemma_mul_neg(p.sin, p.focus.y);
    lemma_mul_neg(p.sin, p.focus.x);
    lemma_mul_neg(p.cos, p.focus.y);
}

/// The inverse view matrix, entry by entry.
pub proof fn lemma_view_inverse_entries(p: Pose)
    ensures
        view_inverse_model(p) == rigid_z(p.cos, -p.sin, p.focus.x, p.focus.y, p.distance),
{
    lemma_mat_mul_entries(
        translation(p.focus.x, p.focus.y, p.distance),
        rotation_z(p.cos, -p.sin),
    );
}

/// The view matrix and its inverse multiply to the identity, in either
/// order.
pub proof fn view_inverse_law(p: Pose)
    requires
        p.cos * p.cos + p.sin * p.sin == 1real,
    ensures
        mat_mul(view_model(p), view_inverse_model(p)) == identity(),
        mat_mul(view_inverse_model(p), view_model(p)) == identity(),
{
    let c = p.cos;
    let s = p.sin;
    let fx = p.focus.x;
    let fy = p.focus.y;
    let tx = turn_x(c, s, fx, fy);
    let ty = turn_y(c, s, fx, fy);
    lemma_view_entries(p);
    lemma_view_inverse_entries(p);
    lemma_mat_mul_entries(
        rigid_z(c, s, -tx, -ty, -p.distance),
        rigid_z(c, -s, fx, fy, p.distance),
    );
    lemma_mat_mul_entries(
        rigid_z(c, -s, fx, fy, p.distance),
        rigid_z(c, s, -tx, -ty, -p.distance),
    );
    lemma_mul_neg(s, s);
    lemma_mul_neg(s, c);
    lemma_mul_neg(c, s);
    lemma_mul_comm(c, s);
    lemma_mul_neg(s, fy);
    // the focus, turned and turned back
    lemma_turn_back(c, s, fx, fy);
    lemma_mul_neg(c, tx);
    lemma_mul_neg(s, ty);
    lemma_mul_neg(s, tx);
    lemma_mul_neg(c, ty);
}

/// The entry that the perspective matrix has twice on its diagonal.
pub open spec fn frustum_scale() -> real {
    near() / (fov_tan() * near())
}

/// The closed form of `world_to_screen_model`: the point is moved and
/// turned into camera space, scaled by the frustum and divided by the
/// distance.
pub proof fn lemma_world_to_screen_closed(p: Pose, pt: RealVec2)
    ensures
        world_to_screen_model(p, pt) == (RealVec2 {
            x: (frustum_scale() * turn_x(p.cos, p.sin, pt.x - p.focus.x, pt.y - p.focus.y))
                / p.distance,
            y: (frustum_scale() * turn_y(p.cos, p.sin, pt.x - p.focus.x, pt.y - p.focus.y))
                / p.distance,
        }),
{
    let c = p.cos;
    let s = p.sin;
    let fx = p.focus.x;
    let fy = p.focus.y;
    let d = p.distance;
    let k = frustum_scale();
    let tx = -turn_x(c, s, fx, fy);
    let ty = -turn_y(c, s, fx, fy);
    let rx = turn_x(c, s, pt.x - fx, pt.y - fy);
    let ry = turn_y(c, s, pt.x - fx, pt.y - fy);
    lemma_view_entries(p);
    lemma_mat_mul_entries(perspective_model(fov_tan(), near(), far()), rigid_z(c, s, tx, ty, -d));
    let m = mat_mul(projection_model(), view_model(p));
    assert(m.r0 == (RealVec4 { x: k * c, y: k * (-s), z: 0real, w: k * tx }));
    assert(m.r1 == (RealVec4 { x: k * s, y: k * c, z: 0real, w: k * ty }));
    assert(m.r3 == (RealVec4 { x: 0real, y: 0real, z: -1real, w: d }));
    let u = mat_vec(m, on_world_plane(pt));
    lemma_mat_vec_entries(m, on_world_plane(pt));
    lemma_mul_by_zero(m.r3.x, pt.x);
    lemma_mul_by_zero(m.r3.y, pt.y);
    assert(u.w == d);
    // u.x == k * rx
    lemma_mul_assoc(k, c, pt.x);
    lemma_mul_assoc(k, -s, pt.y);
    lemma_mul_distributes(c * pt.x, (-s) * pt.y, k);
    lemma_mul_distributes(c * pt.x + (-s) * pt.y, tx, k);
    lemma_mul_neg(s, pt.y);
    lemma_mul_distributes(pt.x, fx, c);
    lemma_mul_distributes(pt.y, fy, s);
    assert(c * pt.x + (-s) * pt.y + tx == rx);
    assert(u.x == k * rx);
    // u.y == k * ry
    lemma_mul_assoc(k, s, pt.x);
    lemma_mul_assoc(k, c, pt.y);
    lemma_mul_distributes(s * pt.x, c * pt.y, k);
    lemma_mul_distributes(s * pt.x + c * pt.y, ty, k);
    lemma_mul_distributes(pt.x, fx, s);
    lemma_mul_distributes(pt.y, fy, c);
    assert(s * pt.x + c * pt.y + ty == ry);
    assert(u.y == k * ry);
}

/// The entry that the inverse perspective matrix has twice on its diagonal.
pub open spec fn frustum_unscale() -> real {
    (fov_tan() * near()) / near()
}

/// The camera's constants are what a frustum needs: none is zero, and the
/// far plane is not the near plane.
pub proof fn lemma_frustum_constants()
    ensures
        fov_tan() != 0real,
        near() != 0real,
        far() != 0real,
        far() != near(),
        fov_tan() > 0real,
{
    lemma_div_mul(5741real, 13860real);
    lemma_div_mul(1000real, 10000real);
    lemma_div_mul(50000000real, 10000real);
}

/// The two diagonal entries undo each other.
pub proof fn lemma_frustum_scale_inverse()
    ensures
        frustum_unscale() * frustum_scale() == 1real,
{
    lemma_frustum_constants();
    let n = near();
    let tn = fov_tan() * near();
    let k = frustum_scale();
    let j = frustum_unscale();
    lemma_mul_nonzero(fov_tan(), near());
    lemma_div_mul(n, tn);
    lemma_div_mul(tn, n);
    // (j * k) * tn == j * (k * tn) == j * n == tn
    lemma_mul_assoc(j, k, tn);
    lemma_mul_cancel(j * k, tn);
}

/// The last coordinate of an unprojected screen point, before the divide,
/// at the depth of the world plane.
pub open spec fn unprojected_w(p: Pose) -> real {
    (far() - near()) / (-2real * near() * far()) * world_plane_depth(p) + (far() + near()) / (2real
        * far() * near())
}

/// At the depth of the world plane, the last coordinate of an unprojected
/// point is one over the distance.
pub proof fn lemma_unprojected_w(p: Pose)
    requires
        p.distance != 0real,
    ensures
        unprojected_w(p) * p.distance == 1real,
        unprojected_w(p) != 0real,
{
    lemma_frustum_constants();
    let d = p.distance;
    let n = near();
    let f = far();
    let e = f - n;
    let g = f * n;
    let qa = -2real * n * f;
    let qb = 2real * f * n;
    let c = e / qa;
    let dd = (f + n) / qb;
    let zc = world_plane_depth(p);
    let numz = (f + n) * (-d) + 2real * (f * n);
    lemma_perspective_z_closed(n, f, -d);
    lemma_mul_nonzero(f, n);
    lemma_mul_comm(n, f);
    lemma_mul_assoc(-2real, n, f);
    lemma_mul_assoc(2real, f, n);
    assert(qb == 2real * g);
    assert(qa == -qb);
    lemma_div_mul(e, qa);
    lemma_div_mul(f + n, qb);
    lemma_div_mul(numz, e * (-d));
    // c * qb == -e
    lemma_mul_neg(c, qb);
    assert(c * qb == -e);
    // zc * (e * d) == -numz
    lemma_mul_neg(e, d);
    lemma_mul_neg(zc, e * d);
    assert(zc * (e * d) == -numz);
    // ((c * zc) * d) * qb == numz
    lemma_mul_swap(c * zc, d, qb);
    lemma_mul_swap(c, zc, qb);
    lemma_mul_neg(e, zc);
    lemma_mul_neg(e * zc, d);
    lemma_mul_comm(e, zc);
    lemma_mul_assoc(zc, e, d);
    assert(((c * zc) * d) * qb == numz);
    // (dd * d) * qb == (f + n) * d
    lemma_mul_swap(dd, d, qb);
    // the sum
    let w = c * zc + dd;
    lemma_mul_distributes(c * zc, dd, d);
    lemma_mul_distributes((c * zc) * d, dd * d, qb);
    lemma_mul_neg(f + n, d);
    assert((w * d) * qb == qb);
    lemma_mul_cancel(w * d, qb);
    lemma_factors_nonzero(w, d);
}

/// The closed form of `screen_to_world_model`: the screen point is scaled
/// back by the frustum, turned back, stretched by the distance and moved to
/// the focus.
pub proof fn lemma_screen_to_world_closed(p: Pose, pt: RealVec2)
    requires
        p.distance != 0real,
    ensures
        screen_to_world_model(p, pt) == (RealVec2 {
            x: p.distance * (frustum_unscale() * turn_x(p.cos, -p.sin, pt.x, pt.y)) + p.focus.x,
            y: p.distance * (frustum_unscale() * turn_y(p.cos, -p.sin, pt.x, pt.y)) + p.focus.y,
        }),
{
    let c = p.cos;
    let s = p.sin;
    let fx = p.focus.x;
    let fy = p.focus.y;
    let d = p.distance;
    let j = frustum_unscale();
    let cc = (far() - near()) / (-2real * near() * far());
    let dd = (far() + near()) / (2real * far() * near());
    let zc = world_plane_depth(p);
    let w = unprojected_w(p);
    let qx = turn_x(c, -s, pt.x, pt.y);
    let qy = turn_y(c, -s, pt.x, pt.y);
    lemma_unprojected_w(p);
    lemma_view_inverse_entries(p);
    lemma_mat_mul_entries(
        rigid_z(c, -s, fx, fy, d),
        inverse_perspective_model(fov_tan(), near(), far()),
    );
    let m = mat_mul(view_inverse_model(p), projection_inverse_model());
    assert(m.r0 == (RealVec4 { x: c * j, y: s * j, z: fx * cc, w: fx * dd }));
    assert(m.r1 == (RealVec4 { x: (-s) * j, y: c * j, z: fy * cc, w: fy * dd }));
    assert(m.r3 == (RealVec4 { x: 0real, y: 0real, z: cc, w: dd }));
    let v = RealVec4 { x: pt.x, y: pt.y, z: zc, w: 1real };
    let u = mat_vec(m, v);
    lemma_mat_vec_entries(m, v);
    lemma_mul_by_zero(m.r3.x, pt.x);
    lemma_mul_by_zero(m.r3.y, pt.y);
    assert(u.w == w);
    // u.x == j * qx + fx * w
    lemma_mul_swap(c, j, pt.x);
    lemma_mul_comm(c * pt.x, j);
    lemma_mul_swap(s, j, pt.y);
    lemma_mul_comm(s * pt.y, j);
    lemma_mul_distributes(c * pt.x, s * pt.y, j);
    lemma_mul_neg(s, pt.y);
    lemma_mul_assoc(fx, cc, zc);
    lemma_mul_distributes(cc * zc, dd, fx);
    assert(u.x == j * qx + fx * w);
    // (d * (j * qx) + fx) * w == u.x
    lemma_mul_comm(d, w);
    lemma_mul_distributes(d * (j * qx), fx, w);
    lemma_mul_swap(d, j * qx, w);
    lemma_mul_by_one(d * w, j * qx);
    lemma_div_is(u.x, w, d * (j * qx) + fx);
    // u.y == j * qy + fy * w
    lemma_mul_swap(-s, j, pt.x);
    lemma_mul_comm((-s) * pt.x, j);
    lemma_mul_swap(c, j, pt.y);
    lemma_mul_comm(c * pt.y, j);
    lemma_mul_distributes((-s) * pt.x, c * pt.y, j);
    lemma_mul_assoc(fy, cc, zc);
    lemma_mul_distributes(cc * zc, dd, fy);
    assert(u.y == j * qy + fy * w);
    lemma_mul_distributes(d * (j * qy), fy, w);
    lemma_mul_swap(d, j * qy, w);
    lemma_mul_by_one(d * w, j * qy);
    lemma_div_is(u.y, w, d * (j * qy) + fy);
}

/// Unprojecting the screen point of a point of the world plane gives the
/// point back: at the depth of the plane, `screen_to_world_model` is the
/// exact inverse of `world_to_screen_model`.
pub proof fn round_trip_law(p: Pose, pt: RealVec2)
    requires
        p.valid(),
    ensures
        screen_to_world_model(p, world_to_screen_model(p, pt)) == pt,
{
    let c = p.cos;
    let s = p.sin;
    let d = p.distance;
    let k = frustum_scale();
    let j = frustum_unscale();
    let a = pt.x - p.focus.x;
    let b = pt.y - p.focus.y;
    let rx = turn_x(c, s, a, b);
    let ry = turn_y(c, s, a, b);
    let screen = world_to_screen_model(p, pt);
    lemma_world_to_screen_closed(p, pt);
    lemma_screen_to_world_closed(p, screen);
    lemma_frustum_scale_inverse();
    lemma_div_mul(k * rx, d);
    lemma_div_mul(k * ry, d);
    lemma_turn_back(c, s, a, b);
    let qx = turn_x(c, -s, screen.x, screen.y);
    let qy = turn_y(c, -s, screen.x, screen.y);
    lemma_turn_scaled(c, -s, screen.x, screen.y, d);
    lemma_turn_scaled(c, -s, rx, ry, k);
    assert(qx * d == k * a);
    assert(qy * d == k * b);
    lemma_unscale(d, j, qx, k, a);
    lemma_unscale(d, j, qy, k, b);
}

/// Projecting the point of the world plane that is seen at a point of the
/// screen gives the screen point back.
pub proof fn round_trip_from_screen_law(p: Pose, pt: RealVec2)
    requires
        p.valid(),
    ensures
        world_to_screen_model(p, screen_to_world_model(p, pt)) == pt,
{
    let c = p.cos;
    let s = p.sin;
    let d = p.distance;
    let k = frustum_scale();
    let j = frustum_unscale();
    let qx = turn_x(c, -s, pt.x, pt.y);
    let qy = turn_y(c, -s, pt.x, pt.y);
    let world = screen_to_world_model(p, pt);
    lemma_screen_to_world_closed(p, pt);
    lemma_world_to_screen_closed(p, world);
    lemma_frustum_scale_inverse();
    lemma_mul_neg(s, s);
    lemma_turn_back(c, -s, pt.x, pt.y);
    // the offset of the world point from the focus is (d * j) * (qx, qy)
    lemma_mul_assoc(d, j, qx);
    lemma_mul_assoc(d, j, qy);
    lemma_turn_scaled(c, s, qx, qy, d * j);
    let rx = turn_x(c, s, world.x - p.focus.x, world.y - p.focus.y);
    let ry = turn_y(c, s, world.x - p.focus.x, world.y - p.focus.y);
    assert(rx == (d * j) * pt.x);
    assert(ry == (d * j) * pt.y);
    lemma_rescale(k, j, d, pt.x);
    lemma_rescale(k, j, d, pt.y);
    lemma_div_is(k * rx, d, pt.x);
    lemma_div_is(k * ry, d, pt.y);
}

/// Where `j` undoes `k`, scaling `(d * j) * x` by `k` gives `x * d`.
proof fn lemma_rescale(k: real, j: real, d: real, x: real)
    requires
        j * k == 1real,
    ensures
        k * ((d * j) * x) == x * d,
{
    lemma_mul_assoc(k, d * j, x);
    lemma_mul_comm(d, j);
    lemma_mul_assoc(k, j, d);
    lemma_mul_comm(k, j);
    lemma_mul_by_one(k * j, d);
    lemma_mul_comm(d, x);
}

/// A point of the world plane that the camera sees lies on the screen:
/// where its offset from the focus, turned into camera space, is at most
/// the distance times the tangent of half the field of view in size, both
/// its screen coordinates lie between -1 and 1.
pub proof fn screen_containment_law(p: Pose, pt: RealVec2)
    requires
        p.valid(),
        ({
            let reach = fov_tan() * p.distance;
            let rx = turn_x(p.cos, p.sin, pt.x - p.focus.x, pt.y - p.focus.y);
            let ry = turn_y(p.cos, p.sin, pt.x - p.focus.x, pt.y - p.focus.y);
            -reach <= rx <= reach && -reach <= ry <= reach
        }),
    ensures
        -1real <= world_to_screen_model(p, pt).x <= 1real,
        -1real <= world_to_screen_model(p, pt).y <= 1real,
{
    let d = p.distance;
    let t = fov_tan();
    let k = frustum_scale();
    let rx = turn_x(p.cos, p.sin, pt.x - p.focus.x, pt.y - p.focus.y);
    let ry = turn_y(p.cos, p.sin, pt.x - p.focus.x, pt.y - p.focus.y);
    lemma_world_to_screen_closed(p, pt);
    lemma_frustum_constants();
    // k * t == 1 and k > 0
    lemma_mul_positive(t, near());
    lemma_div_mul(near(), t * near());
    lemma_mul_assoc(k, t, near());
    lemma_mul_cancel(k * t, near());
    assert(k > 0real) by {
        if k <= 0real {
            lemma_mul_le(t, k, 0real);
            lemma_mul_comm(t, k);
        }
    }
    lemma_mul_assoc(k, t, d);
    lemma_mul_by_one(k * t, d);
    lemma_mul_neg(k, t * d);
    lemma_div_is(d, d, 1real);
    lemma_div_neg(d, d);
    lemma_mul_le(k, rx, t * d);
    lemma_mul_le(k, -(t * d), rx);
    lemma_div_le(k * rx, d, d);
    lemma_div_le(-d, k * rx, d);
    lemma_mul_le(k, ry, t * d);
    lemma_mul_le(k, -(t * d), ry);
    lemma_div_le(k * ry, d, d);
    lemma_div_le(-d, k * ry, d);
}

/// The camera's perspective matrix and its inverse multiply to the
/// identity, in either order.
pub proof fn projection_inverse_law()
    ensures
        mat_mul(projection_model(), projection_inverse_model()) == identity(),
        mat_mul(projection_inverse_model(), projection_model()) == identity(),
{
    lemma_frustum_constants();
    perspective_inverse_law(fov_tan(), near(), far());
}

/// Turning a vector and then turning it back gives the vector.
pub proof fn lemma_turn_back(c: real, s: real, x: real, y: real)
    requires
        c * c + s * s == 1real,
    ensures
        turn_x(c, -s, turn_x(c, s, x, y), turn_y(c, s, x, y)) == x,
        turn_y(c, -s, turn_x(c, s, x, y), turn_y(c, s, x, y)) == y,
{
    let rx = c * x - s * y;
    let ry = s * x + c * y;
    // c * rx + s * ry == x
    lemma_mul_distributes(c * x, s * y, c);
    lemma_mul_distributes(s * x, c * y, s);
    lemma_mul_assoc(c, c, x);
    lemma_mul_assoc(c, s, y);
    lemma_mul_assoc(s, s, x);
    lemma_mul_assoc(s, c, y);
    lemma_mul_comm(c, s);
    lemma_mul_distributes(c * c, s * s, x);
    lemma_mul_by_one(c * c + s * s, x);
    lemma_mul_neg(s, ry);
    assert(c * rx - (-s) * ry == x);
    // -s * rx + c * ry == y
    lemma_mul_distributes(c * x, s * y, s);
    lemma_mul_distributes(s * x, c * y, c);
    lemma_mul_assoc(s, c, x);
    lemma_mul_assoc(s, s, y);
    lemma_mul_assoc(c, s, x);
    lemma_mul_assoc(c, c, y);
    lemma_mul_distributes(c * c, s * s, y);
    lemma_mul_by_one(c * c + s * s, y);
    lemma_mul_neg(s, rx);
    assert((-s) * rx + c * ry == y);
}

/// Turning is linear: a scaled vector turns into the scaled turned vector.
pub proof fn lemma_turn_scaled(c: real, s: real, x: real, y: real, k: real)
    ensures
        turn_x(c, s, x, y) * k == turn_x(c, s, x * k, y * k),
        turn_y(c, s, x, y) * k == turn_y(c, s, x * k, y * k),
        turn_x(c, s, k * x, k * y) == k * turn_x(c, s, x, y),
        turn_y(c, s, k * x, k * y) == k * turn_y(c, s, x, y),
{
    lemma_mul_distributes(c * x, s * y, k);
    lemma_mul_distributes(s * x, c * y, k);
    lemma_mul_assoc(c, x, k);
    lemma_mul_assoc(s, y, k);
    lemma_mul_assoc(s, x, k);
    lemma_mul_assoc(c, y, k);
    lemma_mul_comm(k, x);
    lemma_mul_comm(k, y);
    lemma_mul_comm(k, turn_x(c, s, x, y));
    lemma_mul_comm(k, turn_y(c, s, x, y));
}

/// Where `q * d == k * a` and `j` undoes `k`, stretching `j * q` by `d`
/// gives `a`.
proof fn lemma_unscale(d: real, j: real, q: real, k: real, a: real)
    requires
        q * d == k * a,
        j * k == 1real,
    ensures
        d * (j * q) == a,
{
    lemma_mul_comm(d, j * q);
    lemma_mul_assoc(j, q, d);
    lemma_mul_assoc(j, k, a);
    lemma_mul_by_one(j * k, a);
}

/// The visible part of the world plane is a square, turned with the camera,
/// whose side is twice the distance times the tangent of half the field of
/// view.
pub proof fn lemma_visible_extent(p: Pose)
    requires
        p.valid(),
    ensures
        ({
            let n = 2real * (p.distance * frustum_unscale());
            let left = screen_to_world_model(p, RealVec2 { x: -1real, y: 0real });
            let right = screen_to_world_model(p, RealVec2 { x: 1real, y: 0real });
            let bottom = screen_to_world_model(p, RealVec2 { x: 0real, y: -1real });
            let top = screen_to_world_model(p, RealVec2 { x: 0real, y: 1real });
            &&& is_norm(n, right.x - left.x, right.y - left.y)
            &&& is_norm(n, top.x - bottom.x, top.y - bottom.y)
        }),
{
    let c = p.cos;
    let s = p.sin;
    let d = p.distance;
    let j = frustum_unscale();
    let n = 2real * (d * j);
    lemma_screen_to_world_closed(p, RealVec2 { x: -1real, y: 0real });
    lemma_screen_to_world_closed(p, RealVec2 { x: 1real, y: 0real });
    lemma_screen_to_world_closed(p, RealVec2 { x: 0real, y: -1real });
    lemma_screen_to_world_closed(p, RealVec2 { x: 0real, y: 1real });
    assert(turn_x(c, -s, 1real, 0real) == c);
    assert(turn_y(c, -s, 1real, 0real) == -s);
    assert(turn_x(c, -s, -1real, 0real) == -c);
    assert(turn_y(c, -s, -1real, 0real) == s);
    assert(turn_x(c, -s, 0real, 1real) == s);
    assert(turn_y(c, -s, 0real, 1real) == c);
    assert(turn_x(c, -s, 0real, -1real) == -s);
    assert(turn_y(c, -s, 0real, -1real) == -c);
    // the four differences are n * c, -(n * s), n * s and n * c
    lemma_mul_neg(j, c);
    lemma_mul_neg(j, s);
    lemma_mul_neg(d, j * c);
    lemma_mul_neg(d, j * s);
    lemma_mul_assoc(d, j, c);
    lemma_mul_assoc(d, j, s);
    lemma_mul_assoc(2real, d * j, c);
    lemma_mul_assoc(2real, d * j, s);
    let left = screen_to_world_model(p, RealVec2 { x: -1real, y: 0real });
    let right = screen_to_world_model(p, RealVec2 { x: 1real, y: 0real });
    let bottom = screen_to_world_model(p, RealVec2 { x: 0real, y: -1real });
    let top = screen_to_world_model(p, RealVec2 { x: 0real, y: 1real });
    assert(right.x - left.x == n * c);
    assert(right.y - left.y == -(n * s));
    assert(top.x - bottom.x == n * s);
    assert(top.y - bottom.y == n * c);
    // n * n == (n * c) * (n * c) + (n * s) * (n * s)
    lemma_mul_pair(n, c, n, c);
    lemma_mul_pair(n, s, n, s);
    lemma_mul_distributes(c * c, s * s, n * n);
    lemma_mul_by_one(c * c + s * s, n * n);
    lemma_mul_neg(n * s, n * s);
    // n >= 0
    lemma_frustum_constants();
    lemma_mul_positive(fov_tan(), near());
    lemma_div_mul(fov_tan() * near(), near());
    assert(j > 0real) by {
        if j <= 0real {
            lemma_mul_neg(j, near());
            if j < 0real {
                lemma_mul_positive(-j, near());
            } else {
                lemma_mul_by_zero(j, near());
            }
        }
    }
    lemma_mul_positive(d, j);
}

} // verus!
