use render_system::angle::Angle;
use render_system::camera::projection::{far_plane, fov_angle, near_plane};
use render_system::camera::{
    inverse_perspective, orthographic, perspective, perspective_z, Camera, BASE_DISTANCE_RAW,
    ZOOM_MAX_RAW, ZOOM_MIN_RAW,
};
use render_system::matrix::{Mat4, Vec4};
use render_system::point::{ExactPoint2, Point2, Vector2};
use render_system::rational::Rational;
use render_system::scalar::Scalar;

fn gcd(a: i128, b: i128) -> i128 {
    let (mut a, mut b) = (a.abs(), b.abs());
    while b != 0 {
        let t = a % b;
        a = b;
        b = t;
    }
    a
}

/// A fraction in lowest terms with a positive denominator.
fn reduced(num: i128, den: i128) -> (i128, i128) {
    assert!(den != 0);
    let g = gcd(num, den);
    let s = if den < 0 { -1 } else { 1 };
    (s * num / g, s * den / g)
}

fn lowest(r: Rational) -> (i128, i128) {
    reduced(r.num, r.den)
}

fn float(r: Rational) -> f64 {
    r.num as f64 / r.den as f64
}

fn row(v: &Vec4) -> [f32; 4] {
    [float(v.x) as f32, float(v.y) as f32, float(v.z) as f32, float(v.w) as f32]
}

fn to_glm(m: &Mat4) -> nalgebra_glm::Mat4 {
    let (a, b, c, d) = (row(&m.r0), row(&m.r1), row(&m.r2), row(&m.r3));
    nalgebra_glm::Mat4::new(
        a[0], a[1], a[2], a[3], b[0], b[1], b[2], b[3], c[0], c[1], c[2], c[3], d[0], d[1], d[2],
        d[3],
    )
}

fn add(a: (i128, i128), b: (i128, i128)) -> (i128, i128) {
    reduced(a.0 * b.1 + b.0 * a.1, a.1 * b.1)
}

fn mul(a: (i128, i128), b: (i128, i128)) -> (i128, i128) {
    reduced(a.0 * b.0, a.1 * b.1)
}

fn rows(m: &Mat4) -> [[(i128, i128); 4]; 4] {
    let r = |v: &Vec4| [lowest(v.x), lowest(v.y), lowest(v.z), lowest(v.w)];
    [r(&m.r0), r(&m.r1), r(&m.r2), r(&m.r3)]
}

/// The exact product of two matrices of fractions.
fn product(a: &Mat4, b: &Mat4) -> [[(i128, i128); 4]; 4] {
    let (a, b) = (rows(a), rows(b));
    let mut out = [[(0, 1); 4]; 4];
    for i in 0..4 {
        for j in 0..4 {
            let mut sum = (0, 1);
            for k in 0..4 {
                sum = add(sum, mul(a[i][k], b[k][j]));
            }
            out[i][j] = sum;
        }
    }
    out
}

fn identity() -> [[(i128, i128); 4]; 4] {
    let mut out = [[(0, 1); 4]; 4];
    for i in 0..4 {
        out[i][i] = (1, 1);
    }
    out
}

fn scalar(units: i32) -> Scalar {
    Scalar::from_raw(units * 10_000)
}

fn point(x: i32, y: i32) -> Point2 {
    Point2::new(scalar(x), scalar(y))
}

fn exact(x: i32, y: i32) -> ExactPoint2 {
    ExactPoint2::from_point(point(x, y))
}

fn coords(p: ExactPoint2) -> (f64, f64) {
    (p.x as f64 / p.w as f64, p.y as f64 / p.w as f64)
}

#[test]
fn perspective_inverse() {
    let near = near_plane();
    let far = far_plane();
    let m = to_glm(&perspective(fov_angle(), near, far));
    let m_inv = to_glm(&inverse_perspective(fov_angle(), near, far));

    let result = m * m_inv;
    let expected = nalgebra_glm::Mat4::identity();

    let are_eq = nalgebra_glm::Mat4::relative_eq(&result, &expected, 1.0e-5_f32, 0.01_f32);
    assert!(are_eq);
}

#[test]
fn perspective_inverse_is_exact() {
    let m = perspective(fov_angle(), near_plane(), far_plane());
    let m_inv = inverse_perspective(fov_angle(), near_plane(), far_plane());
    assert_eq!(product(&m, &m_inv), identity());
    assert_eq!(product(&m_inv, &m), identity());
}

#[test]
fn sandbox() {
    let near = near_plane();
    let far = far_plane();
    let perspective = to_glm(&perspective(fov_angle(), near, far));
    let pt = nalgebra_glm::Vec4::new(100_f32, -150_f32, -800_f32, 1_f32);

    let result = perspective * pt;
    let scaled = result / result.w;

    let x_is_normalizd = f32::abs(scaled.x) <= 1_f32;
    let y_is_normalizd = f32::abs(scaled.y) <= 1_f32;
    let z_is_normalizd = f32::abs(scaled.z) <= 1_f32;

    assert!(x_is_normalizd);
    assert!(y_is_normalizd);
    assert!(z_is_normalizd);
}

#[test]
fn screen_to_world_and_back_again_2_electric_boogaloo() {
    let cam = Camera::new(100, 100);

    let world_pt = exact(100, 100);
    let screen_pt = cam.world_to_screen(world_pt);
    assert!(screen_pt.is_bounded());
    let world_pt_2 = cam.screen_to_world(screen_pt);

    let (x, y) = coords(world_pt_2);
    let diff = nalgebra::Vector2::<f32>::new(100_f32 - x as f32, 100_f32 - y as f32);
    assert!(nalgebra::Vector2::<f32>::relative_eq(
        &nalgebra::Vector2::<f32>::zeros(),
        &diff,
        1.0e-3,
        0.1
    ));
    // The round trip is exact.
    assert_eq!(reduced(world_pt_2.x, world_pt_2.w), (100, 1));
    assert_eq!(reduced(world_pt_2.y, world_pt_2.w), (100, 1));
}

fn eq_eps(a: nalgebra_glm::Vec4, b: nalgebra_glm::Vec4, eps: f32) -> bool {
    let diff = a - b;
    (f32::abs(diff.y) < eps)
        && (f32::abs(diff.z) < eps)
        && (f32::abs(diff.x) < eps)
        && (f32::abs(diff.w) < eps)
}

#[test]
fn screen_to_world_and_back_again() {
    let world_pt = nalgebra_glm::Vec4::new(100_f32, -150_f32, -800_f32, 1_f32);
    let mut screen_pt = to_glm(&perspective(fov_angle(), near_plane(), far_plane())) * world_pt;
    screen_pt /= screen_pt.w;
    let mut result =
        to_glm(&inverse_perspective(fov_angle(), near_plane(), far_plane())) * screen_pt;
    result /= result.w;
    assert!(eq_eps(result, world_pt, 1.0));
}

#[test]
fn z_mapping() {
    let world_pt = nalgebra_glm::Vec4::new(100_f32, -150_f32, -800_f32, 1_f32);
    let mut screen_pt = to_glm(&perspective(fov_angle(), near_plane(), far_plane())) * world_pt;
    screen_pt /= screen_pt.w;
    let result = float(perspective_z(near_plane(), far_plane(), scalar(-800))) as f32;
    assert!(f32::abs(result - screen_pt.z) < 1.0e-2_f32);
}

#[test]
fn perspective_z_is_the_mapped_depth() {
    // ((far + near) z + 2 far near) / ((far - near) z) at 0.1, 5000, -800
    let r = perspective_z(near_plane(), far_plane(), scalar(-800));
    assert!(r.den > 0);
    assert_eq!(lowest(r), reduced(399_908, 399_992));
    // the same from the matrix: (A z + B) / -z
    let m = rows(&perspective(fov_angle(), near_plane(), far_plane()));
    let z = (-800, 1);
    let direct = mul(add(mul(m[2][2], z), m[2][3]), (1, 800));
    assert_eq!(lowest(r), direct);
}

#[test]
fn perspective_entries() {
    let m = rows(&perspective(fov_angle(), near_plane(), far_plane()));
    let zero = (0, 1);
    // 1 / tan(fov / 2)
    assert_eq!(m[0], [(13860, 5741), zero, zero, zero]);
    assert_eq!(m[1], [zero, (13860, 5741), zero, zero]);
    // -(far + near) / (far - near) and -2 far near / (far - near)
    assert_eq!(m[2], [zero, zero, reduced(-50_001, 49_999), reduced(-10_000, 49_999)]);
    assert_eq!(m[3], [zero, zero, (-1, 1), zero]);
}

#[test]
fn inverse_perspective_entries() {
    let m = rows(&inverse_perspective(fov_angle(), near_plane(), far_plane()));
    let zero = (0, 1);
    assert_eq!(m[0], [(5741, 13860), zero, zero, zero]);
    assert_eq!(m[1], [zero, (5741, 13860), zero, zero]);
    assert_eq!(m[2], [zero, zero, zero, (-1, 1)]);
    // (far - near) / (-2 near far) and (far + near) / (2 far near)
    assert_eq!(m[3], [zero, zero, reduced(-49_999, 10_000), reduced(50_001, 10_000)]);
}

#[test]
fn perspective_with_a_negative_tangent() {
    let m = perspective(Angle::new(-1, 2), scalar(1), scalar(3));
    assert!(m.r0.x.den > 0 && m.r2.z.den > 0 && m.r2.w.den > 0);
    assert_eq!(lowest(m.r0.x), (-2, 1));
    assert_eq!(lowest(m.r2.z), (-2, 1));
    assert_eq!(lowest(m.r2.w), (-3, 1));
}

#[test]
fn field_of_view_is_a_quarter_of_a_half_turn() {
    let fov = fov_angle();
    let t = fov.p as f64 / fov.q as f64;
    assert!((t - (std::f64::consts::FRAC_PI_4 / 2.0).tan()).abs() < 1.0e-8);
    assert_eq!(near_plane().raw, 1_000);
    assert_eq!(far_plane().raw, 50_000_000);
    assert_eq!(BASE_DISTANCE_RAW, 8_000_000);
}

#[test]
fn orthographic_matches_glm() {
    let ours = to_glm(&orthographic(640, 480));
    let theirs = nalgebra_glm::ortho(0_f32, 640_f32, 0_f32, 480_f32, -10_f32, 10_f32);
    assert!(nalgebra_glm::Mat4::relative_eq(&ours, &theirs, 1.0e-6_f32, 1.0e-6_f32));
    let m = rows(&orthographic(640, 480));
    let zero = (0, 1);
    assert_eq!(m[0], [(1, 320), zero, zero, (-1, 1)]);
    assert_eq!(m[1], [zero, (1, 240), zero, (-1, 1)]);
    assert_eq!(m[2], [zero, zero, (-1, 10), zero]);
    assert_eq!(m[3], [zero, zero, zero, (1, 1)]);
    let cam = Camera::new(640, 480);
    assert_eq!(rows(&cam.orthographic()), m);
}

#[test]
fn construction_defaults() {
    let cam = Camera::new(100, 100);
    assert_eq!(cam.focus_pt, point(0, 0));
    assert_eq!(cam.rotation, Angle::zero());
    assert_eq!(cam.zoom, scalar(0));
    assert_eq!(cam.width, 100);
    assert_eq!(cam.height, 100);
    assert_eq!(cam.effective_distance(), scalar(800));
    let cam = Camera::default();
    assert_eq!((cam.width, cam.height), (1, 1));
    assert_eq!(cam.focus_pt, Point2::origin());
    assert_eq!(cam.zoom.raw, 0);
}

#[test]
fn resize_hands_the_camera_back() {
    let mut cam = Camera::new(100, 100);
    cam.resize(640, 480).look_at(point(3, 4), Angle::new(1, 2));
    assert_eq!((cam.width, cam.height), (640, 480));
    assert_eq!(cam.focus_pt, point(3, 4));
    assert_eq!(cam.zoom.raw, 0);
}

#[test]
fn look_at_is_absolute() {
    let mut cam = Camera::new(100, 100);
    cam.look_at(point(7, -2), Angle::new(3, 4));
    cam.zoom(scalar(10));
    cam.look_at(point(-50, 60), Angle::new(-1, 5));
    assert_eq!(cam.focus_pt, point(-50, 60));
    assert_eq!(cam.rotation, Angle::new(-1, 5));
    assert_eq!(cam.zoom, scalar(10));
    assert_eq!((cam.width, cam.height), (100, 100));
}

#[test]
fn shift_focus_levels_the_view() {
    let mut cam = Camera::new(100, 100);
    cam.look_at(point(10, 20), Angle::new(1, 1));
    cam.shift_focus(Vector2::new(scalar(5), scalar(-30)));
    assert_eq!(cam.focus_pt, point(15, -10));
    assert_eq!(cam.rotation, Angle::zero());
}

#[test]
fn zoom_is_relative_and_set_zoom_absolute() {
    let mut cam = Camera::new(100, 100);
    cam.zoom(scalar(100));
    cam.zoom(scalar(50));
    assert_eq!(cam.zoom, scalar(150));
    assert_eq!(cam.effective_distance(), scalar(650));
    cam.set_zoom(scalar(-200));
    assert_eq!(cam.zoom, scalar(-200));
    assert_eq!(cam.effective_distance(), scalar(1000));
}

#[test]
fn zoom_keeps_the_camera_above_the_plane() {
    let mut cam = Camera::new(100, 100);
    cam.set_zoom(scalar(800));
    assert_eq!(cam.zoom.raw, ZOOM_MAX_RAW);
    assert_eq!(cam.effective_distance().raw, 1);
    cam.zoom(scalar(5000));
    assert_eq!(cam.zoom.raw, ZOOM_MAX_RAW);
    cam.set_zoom(Scalar::from_raw(i32::MIN));
    assert_eq!(cam.zoom.raw, ZOOM_MIN_RAW);
    assert_eq!(cam.effective_distance().raw, i32::MAX);
    cam.zoom(Scalar::from_raw(i32::MIN));
    assert_eq!(cam.zoom.raw, ZOOM_MIN_RAW);
    cam.set_zoom(Scalar::from_raw(ZOOM_MAX_RAW));
    assert_eq!(cam.effective_distance().raw, 1);
}

#[test]
fn view_matches_glm() {
    let mut cam = Camera::new(100, 100);
    // tan(angle / 2) = 1 / 2
    cam.look_at(point(30, -40), Angle::new(1, 2));
    cam.set_zoom(scalar(300));
    let angle = 2_f32 * f32::atan(0.5);
    let rotation = nalgebra_glm::rotation(angle, &nalgebra_glm::Vec3::z_axis());
    let offset = nalgebra_glm::Vec3::new(-30_f32, 40_f32, -500_f32);
    let theirs = rotation * nalgebra_glm::translation(&offset);
    assert!(nalgebra_glm::Mat4::relative_eq(&to_glm(&cam.view()), &theirs, 1.0e-4, 1.0e-5));

    let rotation_inv = nalgebra_glm::rotation(-angle, &nalgebra_glm::Vec3::z_axis());
    let offset = nalgebra_glm::Vec3::new(30_f32, -40_f32, 500_f32);
    let theirs = nalgebra_glm::translation(&offset) * rotation_inv;
    assert!(nalgebra_glm::Mat4::relative_eq(
        &to_glm(&cam.view_inverse()),
        &theirs,
        1.0e-4,
        1.0e-5
    ));
}

#[test]
fn view_entries() {
    let mut cam = Camera::new(100, 100);
    // cosine 3/5, sine 4/5
    cam.look_at(point(10, 5), Angle::new(1, 2));
    let m = rows(&cam.view());
    let zero = (0, 1);
    assert_eq!(m[0], [(3, 5), (-4, 5), zero, (-2, 1)]);
    assert_eq!(m[1], [(4, 5), (3, 5), zero, (-11, 1)]);
    assert_eq!(m[2], [zero, zero, (1, 1), (-800, 1)]);
    assert_eq!(m[3], [zero, zero, zero, (1, 1)]);
    let m = rows(&cam.view_inverse());
    assert_eq!(m[0], [(3, 5), (4, 5), zero, (10, 1)]);
    assert_eq!(m[1], [(-4, 5), (3, 5), zero, (5, 1)]);
    assert_eq!(m[2], [zero, zero, (1, 1), (800, 1)]);
    assert_eq!(m[3], [zero, zero, zero, (1, 1)]);
}

#[test]
fn view_times_its_inverse_is_the_identity() {
    let mut cam = Camera::new(100, 100);
    cam.look_at(point(123, -77), Angle::new(5, 12));
    cam.set_zoom(scalar(-150));
    assert_eq!(product(&cam.view(), &cam.view_inverse()), identity());
    assert_eq!(product(&cam.view_inverse(), &cam.view()), identity());
}

#[test]
fn projection_is_the_perspective_of_the_constants() {
    let cam = Camera::new(100, 100);
    assert_eq!(
        rows(&cam.projection()),
        rows(&perspective(fov_angle(), near_plane(), far_plane()))
    );
    assert_eq!(
        rows(&cam.projection_inverse()),
        rows(&inverse_perspective(fov_angle(), near_plane(), far_plane()))
    );
    assert_eq!(product(&cam.projection(), &cam.projection_inverse()), identity());
}

#[test]
fn world_to_screen_of_a_point() {
    let cam = Camera::new(100, 100);
    let s = cam.world_to_screen(exact(100, 100));
    assert!(s.w > 0);
    // 100 / (tan(fov / 2) * 800)
    assert_eq!(reduced(s.x, s.w), reduced(13860, 5741 * 8));
    assert_eq!(reduced(s.y, s.w), reduced(13860, 5741 * 8));
    let (x, y) = coords(s);
    assert!((x - 0.125 / (std::f64::consts::PI / 8.0).tan()).abs() < 1.0e-7);
    assert!(x == y);
    // the focus is seen at the center of the screen
    let s = cam.world_to_screen(exact(0, 0));
    assert_eq!((s.x, s.y), (0, 0));
}

#[test]
fn world_to_screen_matches_the_matrices() {
    let mut cam = Camera::new(100, 100);
    cam.look_at(point(30, -40), Angle::new(1, 2));
    cam.set_zoom(scalar(300));
    let homo = nalgebra_glm::Vec4::new(70_f32, 25_f32, 0_f32, 1_f32);
    let v = to_glm(&cam.projection()) * to_glm(&cam.view()) * homo;
    let (x, y) = coords(cam.world_to_screen(exact(70, 25)));
    assert!((x as f32 - v.x / v.w).abs() < 1.0e-5);
    assert!((y as f32 - v.y / v.w).abs() < 1.0e-5);
}

#[test]
fn screen_to_world_matches_the_matrices() {
    let mut cam = Camera::new(100, 100);
    cam.look_at(point(30, -40), Angle::new(1, 2));
    cam.set_zoom(scalar(300));
    let pt = ExactPoint2 { x: 1, y: -3, w: 4 };
    let z = float(perspective_z(near_plane(), far_plane(), scalar(-500))) as f32;
    let v = nalgebra_glm::Vec4::new(0.25_f32, -0.75_f32, z, 1_f32);
    let w = to_glm(&cam.view_inverse()) * to_glm(&cam.projection_inverse()) * v;
    let (x, y) = coords(cam.screen_to_world(pt));
    assert!((x as f32 - w.x / w.w).abs() < 0.1);
    assert!((y as f32 - w.y / w.w).abs() < 0.1);
}

#[test]
fn screen_to_world_of_the_center_is_the_focus() {
    let mut cam = Camera::new(100, 100);
    cam.look_at(point(30, -40), Angle::new(1, 2));
    let w = cam.screen_to_world(exact(0, 0));
    assert_eq!(reduced(w.x, w.w), (30, 1));
    assert_eq!(reduced(w.y, w.w), (-40, 1));
}

#[test]
fn screen_to_world_of_a_point() {
    let cam = Camera::new(100, 100);
    // distance * tan(fov / 2) * 1/2
    let w = cam.screen_to_world(ExactPoint2 { x: 1, y: 0, w: 2 });
    assert_eq!(reduced(w.x, w.w), reduced(400 * 5741, 13860));
    assert_eq!(reduced(w.y, w.w), (0, 1));
}

#[test]
fn round_trip_is_exact_for_a_turned_camera() {
    let mut cam = Camera::new(100, 100);
    cam.look_at(point(-12, 7), Angle::new(2, 3));
    cam.set_zoom(Scalar::from_raw(123_456));
    for &(x, y) in &[(100, 100), (-250, 3), (0, 0), (1, -999), (21_474, -21_474)] {
        let screen = cam.world_to_screen(exact(x, y));
        assert!(screen.is_bounded());
        let world = cam.screen_to_world(screen);
        assert!(world.w > 0);
        assert_eq!(reduced(world.x, world.w), (x as i128, 1));
        assert_eq!(reduced(world.y, world.w), (y as i128, 1));
    }
}

#[test]
fn round_trip_from_the_screen() {
    let mut cam = Camera::new(100, 100);
    cam.look_at(point(-12, 7), Angle::new(2, 3));
    cam.set_zoom(Scalar::from_raw(123_456));
    let screen = ExactPoint2 { x: -7, y: 5, w: 9 };
    let world = cam.screen_to_world(screen);
    assert!(world.is_bounded());
    let back = cam.world_to_screen(world);
    assert_eq!(reduced(back.x, back.w), (-7, 9));
    assert_eq!(reduced(back.y, back.w), (5, 9));
}

#[test]
fn world_to_screen_of_a_fraction() {
    let cam = Camera::new(100, 100);
    // (1/3) / (tan(fov / 2) * 800)
    let s = cam.world_to_screen(ExactPoint2 { x: 1, y: -2, w: 3 });
    assert_eq!(reduced(s.x, s.w), reduced(13860, 3 * 5741 * 800));
    assert_eq!(reduced(s.y, s.w), reduced(-2 * 13860, 3 * 5741 * 800));
}

#[test]
fn end_to_end() {
    let cam = Camera::new(100, 100);
    let screen = cam.world_to_screen(exact(100, 100));
    let (x, y) = coords(cam.screen_to_world(screen));
    assert!((x - 100.0).abs() < 0.1 && (y - 100.0).abs() < 0.1);
}

#[test]
fn world_plane_dim_is_the_visible_square() {
    let mut cam = Camera::new(100, 100);
    // 2 * 800 * tan(fov / 2)
    let dim = cam.world_plane_dim(scalar(0));
    assert_eq!(lowest(dim.x), reduced(1600 * 5741, 13860));
    assert_eq!(lowest(dim.y), lowest(dim.x));
    assert!((float(dim.x) - 1600.0 * (std::f64::consts::PI / 8.0).tan()).abs() < 1.0e-4);
    // the argument is not used, the rotation changes nothing
    cam.look_at(point(5, 5), Angle::new(1, 3));
    let turned = cam.world_plane_dim(scalar(77));
    assert_eq!(lowest(turned.x), lowest(dim.x));
    // the extent is how far apart the unprojected edge midpoints lie
    let l = coords(cam.screen_to_world(ExactPoint2 { x: -1, y: 0, w: 1 }));
    let r = coords(cam.screen_to_world(ExactPoint2 { x: 1, y: 0, w: 1 }));
    let measured = ((r.0 - l.0).powi(2) + (r.1 - l.1).powi(2)).sqrt();
    assert!((measured - float(turned.x)).abs() < 1.0e-6);
    cam.set_zoom(scalar(400));
    assert_eq!(lowest(cam.world_plane_dim(scalar(0)).x), reduced(800 * 5741, 13860));
}

#[test]
fn exact_points_know_their_bounds() {
    assert!(ExactPoint2 { x: 1 << 48, y: -(1 << 48), w: 1 << 48 }.is_bounded());
    assert!(!ExactPoint2 { x: (1 << 48) + 1, y: 0, w: 1 }.is_bounded());
    assert!(!ExactPoint2 { x: 0, y: -(1 << 48) - 1, w: 1 }.is_bounded());
    assert!(!ExactPoint2 { x: 0, y: 0, w: 0 }.is_bounded());
    assert!(!ExactPoint2 { x: 0, y: 0, w: (1 << 48) + 1 }.is_bounded());
    let e = ExactPoint2::from_point(Point2::new(Scalar::from_raw(i32::MIN), scalar(3)));
    assert_eq!((e.x, e.y, e.w), (i32::MIN as i128, 30_000, 10_000));
    assert!(e.is_bounded());
}

#[test]
fn the_edges_of_the_visible_square_are_the_edges_of_the_screen() {
    let mut cam = Camera::new(100, 100);
    cam.look_at(point(10, -20), Angle::zero());
    // half the side of the visible square: 800 * 5741 / 13860
    let half = |sign: i128| 800 * 5741 * sign;
    let right = ExactPoint2 { x: 10 * 13860 + half(1), y: -20 * 13860, w: 13860 };
    let s = cam.world_to_screen(right);
    assert_eq!((s.x, s.y, s.w), (1, 0, 1));
    let bottom = ExactPoint2 { x: 10 * 13860, y: -20 * 13860 + half(-1), w: 13860 };
    let s = cam.world_to_screen(bottom);
    assert_eq!((s.x, s.y, s.w), (0, -1, 1));
    // inside the square, inside the screen
    let s = cam.world_to_screen(exact(300, -300));
    assert!(s.x.abs() <= s.w && s.y.abs() <= s.w);
    // outside the square, outside the screen
    let s = cam.world_to_screen(exact(400, -20));
    assert!(s.x > s.w);
}

#[test]
fn mapped_points_are_in_lowest_terms() {
    let cam = Camera::new(100, 100);
    let s = cam.world_to_screen(exact(100, 50));
    assert_eq!(gcd(gcd(s.x, s.y), s.w), 1);
    // (100, 50) * 13860 / (5741 * 800)
    assert_eq!((s.x, s.y, s.w), (6930, 3465, 22964));
    let w = cam.screen_to_world(ExactPoint2 { x: 2, y: 4, w: 8 });
    assert_eq!(gcd(gcd(w.x, w.y), w.w), 1);
}
