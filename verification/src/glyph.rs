//! The outline that the editor starts with: a serif capital I.

use crate::curve::{shape, Bezier};
use crate::point::Point;
use vstd::prelude::*;

verus! {

/// The point `(x, y)`.
pub open spec fn at(x: i64, y: i64) -> Point {
    Point { x, y }
}

/// The control points of the capital I: two stems, four quadratic serif
/// brackets, the top and bottom edges, and the four short serif ends.
pub open spec fn letter_i_shape() -> Seq<Seq<Point>> {
    seq![
        seq![at(180, 75), at(180, 350)],
        seq![at(130, 65), at(166, 60), at(180, 75)],
        seq![at(230, 75), at(230, 350)],
        seq![at(230, 75), at(235, 60), at(280, 65)],
        seq![at(280, 50), at(130, 50)],
        seq![at(280, 370), at(130, 370)],
        seq![at(133, 360), at(185, 365), at(180, 350)],
        seq![at(230, 350), at(230, 365), at(280, 360)],
        seq![at(130, 65), at(130, 50)],
        seq![at(280, 65), at(280, 50)],
        seq![at(130, 360), at(130, 370)],
        seq![at(280, 360), at(280, 370)],
    ]
}

/// Every curve of the set has at least one control point.
pub open spec fn all_wf(curves: Seq<Seq<Point>>) -> bool {
    forall|b: int| 0 <= b < curves.len() ==> (#[trigger] curves[b]).len() >= 1
}

/// The straight curve from `a` to `b`.
pub fn straight(a: (i64, i64), b: (i64, i64)) -> (c: Bezier)
    ensures
        c@ == seq![at(a.0, a.1), at(b.0, b.1)],
{
    let mut points: Vec<Point> = Vec::with_capacity(2);
    points.push(Point { x: a.0, y: a.1 });
    points.push(Point { x: b.0, y: b.1 });
    assert(points@ =~= seq![at(a.0, a.1), at(b.0, b.1)]);
    Bezier::new(points)
}

/// The quadratic curve from `a` to `b` that is pulled toward `via`.
pub fn quadratic(a: (i64, i64), via: (i64, i64), b: (i64, i64)) -> (c: Bezier)
    ensures
        c@ == seq![at(a.0, a.1), at(via.0, via.1), at(b.0, b.1)],
{
    let mut points: Vec<Point> = Vec::with_capacity(3);
    points.push(Point { x: a.0, y: a.1 });
    points.push(Point { x: via.0, y: via.1 });
    points.push(Point { x: b.0, y: b.1 });
    assert(points@ =~= seq![at(a.0, a.1), at(via.0, via.1), at(b.0, b.1)]);
    Bezier::new(points)
}

/// The twelve curves of the capital I.
pub fn letter_i() -> (curves: Vec<Bezier>)
    ensures
        shape(curves@) == letter_i_shape(),
        curves@.len() == 12,
        all_wf(shape(curves@)),
{
    let mut curves: Vec<Bezier> = Vec::with_capacity(12);
    curves.push(straight((180, 75), (180, 350)));
    curves.push(quadratic((130, 65), (166, 60), (180, 75)));
    curves.push(straight((230, 75), (230, 350)));
    curves.push(quadratic((230, 75), (235, 60), (280, 65)));
    curves.push(straight((280, 50), (130, 50)));
    curves.push(straight((280, 370), (130, 370)));
    curves.push(quadratic((133, 360), (185, 365), (180, 350)));
    curves.push(quadratic((230, 350), (230, 365), (280, 360)));
    curves.push(straight((130, 65), (130, 50)));
    curves.push(straight((280, 65), (280, 50)));
    curves.push(straight((130, 360), (130, 370)));
    curves.push(straight((280, 360), (280, 370)));
    assert(shape(curves@) =~= letter_i_shape());
    curves
}

} // verus!
