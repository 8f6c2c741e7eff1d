use bezierglyph::curve::{draw_curve_point, Bezier};
use bezierglyph::param::Param;
use bezierglyph::point::Point;

fn pt(x: i64, y: i64) -> Point {
    Point { x, y }
}

fn t(num: i32, den: u32) -> Param {
    Param::new(num, den).unwrap()
}

#[test]
fn zero_denominator_is_no_parameter() {
    assert!(Param::new(1, 0).is_none());
    assert!(Param::new(0, 0).is_none());
    let half = Param::new(1, 2).unwrap();
    assert_eq!(half.numerator(), 1);
    assert_eq!(half.denominator(), 2);
}

#[test]
fn empty_list_has_no_point() {
    assert_eq!(draw_curve_point(&[], t(1, 2)), None);
    assert_eq!(Bezier::new(vec![]).get_point(t(0, 1)), None);
}

#[test]
fn single_point_is_its_own_value() {
    for k in [-300, -1, 0, 1, 37, 50, 99, 100, 101, 4000] {
        assert_eq!(draw_curve_point(&[pt(0, 0)], t(k, 100)), Some(pt(0, 0)));
        assert_eq!(draw_curve_point(&[pt(-7, 12)], t(k, 100)), Some(pt(-7, 12)));
    }
}

#[test]
fn two_points_at_one_half() {
    assert_eq!(draw_curve_point(&[pt(0, 0), pt(10, 0)], t(1, 2)), Some(pt(5, 0)));
    assert_eq!(draw_curve_point(&[pt(0, 0), pt(10, 0)], t(50, 100)), Some(pt(5, 0)));
}

#[test]
fn two_point_curve_ends() {
    let points = [pt(180, 75), pt(180, 350)];
    assert_eq!(draw_curve_point(&points, t(0, 100)), Some(pt(180, 75)));
    assert_eq!(draw_curve_point(&points, t(100, 100)), Some(pt(180, 350)));
    assert_eq!(draw_curve_point(&points, t(0, 7)), Some(pt(180, 75)));
    assert_eq!(draw_curve_point(&points, t(7, 7)), Some(pt(180, 350)));
}

#[test]
fn quadratic_curve_ends() {
    let points = [pt(0, 0), pt(10, 0), pt(10, 10)];
    assert_eq!(draw_curve_point(&points, t(0, 1)), Some(pt(0, 0)));
    assert_eq!(draw_curve_point(&points, t(1, 1)), Some(pt(10, 10)));
}

#[test]
fn quadratic_curve_in_the_middle() {
    // (0,0),(10,0),(10,10) at 1/2: first (5,0),(10,5), then (7,2).
    let points = [pt(0, 0), pt(10, 0), pt(10, 10)];
    assert_eq!(draw_curve_point(&points, t(1, 2)), Some(pt(7, 2)));
}

#[test]
fn interpolation_rounds_toward_zero() {
    assert_eq!(t(1, 3).interpolate(0, 10), 3);
    assert_eq!(t(1, 3).interpolate(0, -10), -3);
    assert_eq!(t(2, 3).interpolate(0, -10), -6);
    assert_eq!(t(1, 2).interpolate(-1, 0), 0);
    // (93 * 180 + 7 * 350) / 100 = 191.9
    assert_eq!(t(7, 100).interpolate(180, 350), 191);
}

#[test]
fn every_reduction_step_truncates() {
    // (0,2,2) at 1/3: the first step gives (0,2), the second 0; the
    // polynomial itself would give 10/9.
    let points = [pt(0, 0), pt(2, 0), pt(2, 0)];
    assert_eq!(draw_curve_point(&points, t(1, 3)), Some(pt(0, 0)));
}

#[test]
fn parameter_outside_unit_interval_extrapolates() {
    let points = [pt(0, 0), pt(10, 4)];
    assert_eq!(draw_curve_point(&points, t(2, 1)), Some(pt(20, 8)));
    assert_eq!(draw_curve_point(&points, t(-1, 1)), Some(pt(-10, -4)));
    assert_eq!(draw_curve_point(&points, t(150, 100)), Some(pt(15, 6)));
}

#[test]
fn extrapolation_stops_at_the_coordinate_range() {
    let points = [pt(0, 0), pt(i64::MAX, i64::MIN)];
    assert_eq!(draw_curve_point(&points, t(2, 1)), Some(pt(i64::MAX, i64::MIN)));
    assert_eq!(draw_curve_point(&points, t(-2, 1)), Some(pt(i64::MIN, i64::MAX)));
}

#[test]
fn extreme_coordinates_within_unit_interval() {
    let points = [pt(i64::MIN, i64::MAX), pt(i64::MAX, i64::MIN)];
    assert_eq!(draw_curve_point(&points, t(0, 1)), Some(pt(i64::MIN, i64::MAX)));
    assert_eq!(draw_curve_point(&points, t(1, 1)), Some(pt(i64::MAX, i64::MIN)));
    assert_eq!(draw_curve_point(&points, t(1, 2)), Some(pt(0, 0)));
}

#[test]
fn get_point_agrees_with_draw_curve_point() {
    let points = vec![pt(133, 360), pt(185, 365), pt(180, 350)];
    let curve = Bezier::new(points.clone());
    for k in 0..100 {
        assert_eq!(curve.get_point(t(k, 100)), draw_curve_point(&points, t(k, 100)));
    }
}

#[test]
fn evaluation_is_repeated_pairwise_reduction() {
    let points = vec![pt(3, 9), pt(40, -8), pt(-17, 22), pt(6, 6)];
    let at = t(37, 100);
    let mut level = points.clone();
    let mut steps = 0;
    while level.len() > 1 {
        level = level
            .windows(2)
            .map(|w| pt(at.interpolate(w[0].x, w[1].x), at.interpolate(w[0].y, w[1].y)))
            .collect();
        steps += 1;
    }
    assert_eq!(steps, points.len() - 1);
    assert_eq!(draw_curve_point(&points, at), Some(level[0]));
}
