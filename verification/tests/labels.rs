use bezierglyph::glyph::{letter_i, quadratic};
use bezierglyph::label::{coordinates_text, curve_labels};
use bezierglyph::point::Point;

fn p(x: i64, y: i64) -> Point {
    Point { x, y }
}

#[test]
fn coordinates_are_written_in_decimal() {
    assert_eq!(coordinates_text(p(130, 65)), "(130, 65)");
    assert_eq!(coordinates_text(p(0, 0)), "(0, 0)");
    assert_eq!(coordinates_text(p(9, 10)), "(9, 10)");
    assert_eq!(coordinates_text(p(-1, 1000)), "(-1, 1000)");
    assert_eq!(coordinates_text(p(-205, -7)), "(-205, -7)");
}

#[test]
fn coordinates_at_the_ends_of_the_range() {
    assert_eq!(
        coordinates_text(p(i64::MIN, i64::MAX)),
        "(-9223372036854775808, 9223372036854775807)"
    );
}

#[test]
fn coordinates_agree_with_the_standard_formatting() {
    for x in [-100, -11, -10, -9, -1, 0, 1, 9, 10, 11, 99, 100, 101, 399] {
        for y in [-1, 0, 5, 10, 370, 12345] {
            assert_eq!(coordinates_text(p(x, y)), format!("({}, {})", x, y));
        }
    }
}

#[test]
fn labels_sit_one_glyph_below_their_points() {
    let curve = quadratic((130, 65), (166, 60), (180, 75));
    let labels = curve_labels(&curve, 16);
    assert_eq!(labels.len(), 3);
    assert_eq!(labels[0].text, "(130, 65)");
    assert_eq!(labels[0].at, p(130, 81));
    assert_eq!(labels[1].text, "(166, 60)");
    assert_eq!(labels[1].at, p(166, 76));
    assert_eq!(labels[2].text, "(180, 75)");
    assert_eq!(labels[2].at, p(180, 91));
}

#[test]
fn every_curve_of_the_glyph_has_a_label_per_point() {
    for curve in letter_i() {
        let labels = curve_labels(&curve, 16);
        assert_eq!(labels.len(), curve.points.len());
        for (label, point) in labels.iter().zip(curve.points.iter()) {
            assert_eq!(label.at, p(point.x, point.y + 16));
            assert_eq!(label.text, format!("({}, {})", point.x, point.y));
        }
    }
}
