use render_system::angle::Angle;
use render_system::ints::greatest_common_divisor;
use render_system::point::{ExactPoint2, Point2, Vector2};
use render_system::rational::Rational;
use render_system::rectangle::Rect;
use render_system::scalar::{Scalar, SCALE};

#[test]
fn scalars_count_ten_thousandths() {
    assert_eq!(SCALE, 10_000);
    assert_eq!(Scalar::from_int(3).raw, 30_000);
    assert_eq!(Scalar::from_int(-32_768).raw, -327_680_000);
    assert_eq!(Scalar::from_raw(17).raw, 17);
    assert_eq!(Scalar::zero(), Scalar::from_int(0));
}

#[test]
fn scalar_sums() {
    let a = Scalar::from_raw(15_000);
    let b = Scalar::from_raw(-40_001);
    assert_eq!(a.plus(b).raw, -25_001);
    assert_eq!(a.checked_plus(b), Some(Scalar::from_raw(-25_001)));
    assert_eq!(Scalar::from_raw(i32::MAX).checked_plus(Scalar::from_raw(1)), None);
    assert_eq!(Scalar::from_raw(i32::MIN).checked_plus(Scalar::from_raw(-1)), None);
    assert_eq!(
        Scalar::from_raw(i32::MAX).checked_plus(Scalar::from_raw(0)),
        Some(Scalar::from_raw(i32::MAX))
    );
}

#[test]
fn rationals_keep_the_sign_in_the_numerator() {
    let r = Rational::new(3, -4);
    assert_eq!((r.num, r.den), (-3, 4));
    let r = Rational::new(-3, -4);
    assert_eq!((r.num, r.den), (3, 4));
    let r = Rational::new(6, 8);
    assert_eq!((r.num, r.den), (6, 8));
    let r = Rational::from_int(-7);
    assert_eq!((r.num, r.den), (-7, 1));
}

#[test]
fn angles_lie_on_the_unit_circle() {
    for &(p, q) in &[(0, 1), (1, 2), (1, 0), (-3, 7), (i16::MIN, i16::MIN), (i16::MAX, 1)] {
        let (a, b, h) = Angle::new(p, q).parts();
        let (a, b, h) = (a as i128, b as i128, h as i128);
        assert!(h > 0);
        assert_eq!(a * a + b * b, h * h);
    }
    // tan(angle / 2) = 1 / 2: cosine 3/5, sine 4/5
    assert_eq!(Angle::new(1, 2).parts(), (3, 4, 5));
    // a half turn
    assert_eq!(Angle::new(1, 0).parts(), (-1, 0, 1));
    assert_eq!(Angle::zero().parts(), (1, 0, 1));
    assert_eq!(Angle::new(0, 0).parts(), (0, 0, 0));
}

#[test]
fn half_tangents_are_angles() {
    let (a, b, h) = Angle::new(1, 2).parts();
    let angle = 2.0 * f64::atan(0.5);
    assert!((a as f64 / h as f64 - angle.cos()).abs() < 1.0e-12);
    assert!((b as f64 / h as f64 - angle.sin()).abs() < 1.0e-12);
}

#[test]
fn points_move_by_vectors() {
    let p = Point2::new(Scalar::from_int(2), Scalar::from_int(-3));
    let v = Vector2::new(Scalar::from_raw(5), Scalar::from_raw(-5));
    let q = p.plus(v);
    assert_eq!((q.x.raw, q.y.raw), (20_005, -30_005));
    assert_eq!(Point2::origin(), Point2::new(Scalar::zero(), Scalar::zero()));
}

#[test]
fn rectangle_corners() {
    let min = Point2::new(Scalar::from_int(1), Scalar::from_int(2));
    let r = Rect::new(min, Scalar::from_int(10), Scalar::from_int(20));
    let at = |x: i16, y: i16| Point2::new(Scalar::from_int(x), Scalar::from_int(y));
    assert_eq!(r.bottom_left(), at(1, 2));
    assert_eq!(r.bottom_right(), at(11, 2));
    assert_eq!(r.top_left(), at(1, 22));
    assert_eq!(r.top_right(), at(11, 22));
}

#[test]
fn greatest_common_divisors() {
    assert_eq!(greatest_common_divisor(12, 18), 6);
    assert_eq!(greatest_common_divisor(18, 12), 6);
    assert_eq!(greatest_common_divisor(7, 0), 7);
    assert_eq!(greatest_common_divisor(0, 7), 7);
    assert_eq!(greatest_common_divisor(0, 0), 0);
    assert_eq!(greatest_common_divisor(17, 5), 1);
    assert_eq!(greatest_common_divisor(u128::MAX, u128::MAX), u128::MAX);
}

#[test]
fn exact_points_reduce_to_lowest_terms() {
    let r = ExactPoint2 { x: 12, y: -18, w: 30 }.reduce();
    assert_eq!((r.x, r.y, r.w), (2, -3, 5));
    let r = ExactPoint2 { x: 0, y: 0, w: 30 }.reduce();
    assert_eq!((r.x, r.y, r.w), (0, 0, 1));
    let r = ExactPoint2 { x: 7, y: 11, w: 13 }.reduce();
    assert_eq!((r.x, r.y, r.w), (7, 11, 13));
    let r = ExactPoint2 { x: i128::MIN, y: i128::MAX, w: 1 }.reduce();
    assert_eq!((r.x, r.y, r.w), (i128::MIN, i128::MAX, 1));
    let r = ExactPoint2 { x: i128::MIN, y: 0, w: 1 << 100 }.reduce();
    assert_eq!((r.x, r.y, r.w), (-(1 << 27), 0, 1));
}
