use bezierglyph::curve::Bezier;
use bezierglyph::glyph::{letter_i, quadratic, straight};
use bezierglyph::param::Param;
use bezierglyph::point::Point;
use bezierglyph::sample::{
    control_markers, curve_segments, Segment, MARKER_HALF_SIZE, SAMPLES, STRIDE,
};

fn p(x: i64, y: i64) -> Point {
    Point { x, y }
}

#[test]
fn sampling_constants() {
    assert_eq!(SAMPLES, 100);
    assert_eq!(STRIDE, 5);
    assert_eq!(MARKER_HALF_SIZE, 3);
}

#[test]
fn straight_line_is_sampled_every_fifth_step() {
    let segments = curve_segments(&straight((0, 0), (100, 0)));
    assert_eq!(segments.len(), 21);
    assert_eq!(segments[0], Segment { from: p(0, 0), to: p(0, 0) });
    for j in 1..20 {
        let from = 5 * (j as i64 - 1);
        assert_eq!(segments[j], Segment { from: p(from, 0), to: p(from + 5, 0) });
    }
    assert_eq!(segments[20], Segment { from: p(95, 0), to: p(100, 0) });
}

#[test]
fn sampling_ends_on_the_last_control_point() {
    for curve in letter_i() {
        let segments = curve_segments(&curve);
        assert_eq!(segments.len(), 21);
        assert_eq!(segments[0].from, curve.points[0]);
        assert_eq!(segments[20].to, *curve.points.last().unwrap());
        for j in 1..segments.len() {
            assert_eq!(segments[j].from, segments[j - 1].to);
        }
    }
}

#[test]
fn samples_are_points_of_the_curve() {
    let curve = quadratic((130, 65), (166, 60), (180, 75));
    let segments = curve_segments(&curve);
    for j in 0..20 {
        let t = Param::new(5 * j as i32, 100).unwrap();
        assert_eq!(Some(segments[j].to), curve.get_point(t));
    }
    // at 95/100: (164, 60), (179, 74), then (178, 73)
    assert_eq!(segments[19].to, p(178, 73));
    assert_eq!(segments[20], Segment { from: p(178, 73), to: p(180, 75) });
}

#[test]
fn single_point_curve_is_sampled_in_place() {
    let segments = curve_segments(&Bezier::new(vec![p(4, 2)]));
    assert_eq!(segments.len(), 21);
    for s in segments {
        assert_eq!(s, Segment { from: p(4, 2), to: p(4, 2) });
    }
}

#[test]
fn markers_are_all_control_points_in_order() {
    let curves = vec![
        straight((1, 2), (3, 4)),
        Bezier::new(vec![]),
        quadratic((5, 6), (7, 8), (9, 10)),
        Bezier::new(vec![p(11, 12)]),
    ];
    assert_eq!(
        control_markers(&curves),
        vec![p(1, 2), p(3, 4), p(5, 6), p(7, 8), p(9, 10), p(11, 12)]
    );
    assert_eq!(control_markers(&vec![]), vec![]);
}

#[test]
fn capital_i_has_twelve_curves() {
    let curves = letter_i();
    assert_eq!(curves.len(), 12);
    let lengths: Vec<usize> = curves.iter().map(|c| c.points.len()).collect();
    assert_eq!(lengths, vec![2, 3, 2, 3, 2, 2, 3, 3, 2, 2, 2, 2]);
    assert_eq!(curves[0].points, vec![p(180, 75), p(180, 350)]);
    assert_eq!(curves[1].points, vec![p(130, 65), p(166, 60), p(180, 75)]);
    assert_eq!(curves[6].points, vec![p(133, 360), p(185, 365), p(180, 350)]);
    assert_eq!(curves[11].points, vec![p(280, 360), p(280, 370)]);
    let markers = control_markers(&curves);
    assert_eq!(markers.len(), 28);
    assert_eq!(markers[0], p(180, 75));
    assert_eq!(markers[27], p(280, 370));
}
