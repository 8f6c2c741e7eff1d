//! Turning curves into what is drawn: a polyline of line segments for each
//! curve and a square marker for each control point.

use crate::curve::{curve_point, shape, Bezier};
use crate::param::Param;
use crate::point::Point;
use vstd::prelude::*;

verus! {

/// How many parameter values a curve is sampled at: `0/100, 1/100, .., 99/100`.
pub const SAMPLES: u32 = 100;

/// Every how many samples a segment is drawn.
pub const STRIDE: u32 = 5;

/// Half the side of the square marker drawn on a control point, in pixels.
pub const MARKER_HALF_SIZE: i64 = 3;

/// A straight line segment of a drawn curve.
#[derive(Clone, Copy, Debug, PartialEq, Eq, Structural)]
pub struct Segment {
    pub from: Point,
    pub to: Point,
}

/// The `k`-th sample of a curve: its point at `t = k / 100`.
pub open spec fn sample(points: Seq<Point>, k: int) -> Point {
    curve_point(points, k, SAMPLES as int).unwrap()
}

/// The `j`-th corner of the polyline drawn for a curve. The polyline starts
/// at the first control point, passes through every fifth sample (those at
/// `t = 0.00, 0.05, .., 0.95`) and stops at the last control point.
pub open spec fn knot(points: Seq<Point>, j: int) -> Point {
    if j <= 0 {
        points.first()
    } else if j <= SAMPLES / STRIDE {
        sample(points, STRIDE * (j - 1))
    } else {
        points.last()
    }
}

/// The segments drawn for a curve: one between each two neighbouring corners
/// of its polyline, in order.
pub open spec fn polyline(points: Seq<Point>) -> Seq<Segment> {
    Seq::new(
        (SAMPLES / STRIDE + 1) as nat,
        |j: int| (Segment { from: knot(points, j), to: knot(points, j + 1) }),
    )
}

/// The control points of the first `n` curves, curve after curve.
pub open spec fn markers_of(curves: Seq<Seq<Point>>, n: nat) -> Seq<Point>
    decreases n,
{
    if n == 0 {
        Seq::empty()
    } else {
        markers_of(curves, (n - 1) as nat) + curves[n - 1]
    }
}

/// Samples a curve into the line segments that draw it.
///
/// Whatever the stride, the last segment ends exactly on the last control
/// point of the curve.
pub fn curve_segments(c: &Bezier) -> (segments: Vec<Segment>)
    requires
        c.wf(),
    ensures
        segments@ == polyline(c@),
        segments@.len() == SAMPLES / STRIDE + 1,
        segments@.last().to == c@.last(),
{
    let mut segments: Vec<Segment> = Vec::new();
    let mut prev_point: Point = c.points[0];
    let mut countdown: u32 = 0;
    let mut k: u32 = 0;
    while k < SAMPLES
        invariant
            c.wf(),
            k <= SAMPLES,
            countdown == (STRIDE - k % STRIDE) % (STRIDE as int),
            segments@.len() == (k + STRIDE - 1) / (STRIDE as int),
            prev_point == knot(c@, segments@.len() as int),
            forall|j: int|
                0 <= j < segments@.len() ==> segments@[j] == (Segment {
                    from: knot(c@, j),
                    to: knot(c@, j + 1),
                }),
        decreases SAMPLES - k,
    {
        if let Some(t) = Param::new(k as i32, SAMPLES) {
            if let Some(new_point) = c.get_point(t) {
                if countdown == 0 {
                    segments.push(Segment { from: prev_point, to: new_point });
                    countdown = STRIDE;
                    prev_point = new_point;
                }
                countdown -= 1;
            }
        }
        k += 1;
    }
    let last_point: Point = c.points[c.points.len() - 1];
    segments.push(Segment { from: prev_point, to: last_point });
    assert(segments@ =~= polyline(c@));
    segments
}

/// The places of the square markers: every control point of every curve, in
/// order.
pub fn control_markers(curves: &Vec<Bezier>) -> (markers: Vec<Point>)
    ensures
        markers@ == markers_of(shape(curves@), curves@.len()),
{
    let mut markers: Vec<Point> = Vec::new();
    let mut b: usize = 0;
    while b < curves.len()
        invariant
            b <= curves.len(),
            markers@ == markers_of(shape(curves@), b as nat),
        decreases curves.len() - b,
    {
        let c = &curves[b];
        let mut i: usize = 0;
        while i < c.points.len()
            invariant
                b < curves.len(),
                c == curves@[b as int],
                i <= c.points.len(),
                markers@ == markers_of(shape(curves@), b as nat) + c@.take(i as int),
            decreases c.points.len() - i,
        {
            markers.push(c.points[i]);
            assert(c@.take(i + 1) =~= c@.take(i as int).push(c@[i as int]));
            i += 1;
        }
        assert(c@.take(i as int) =~= c@);
        b += 1;
    }
    markers
}

/// The polyline of a curve starts on its first control point and ends
/// exactly on its last one, and each segment starts where the one before it
/// ended.
pub proof fn lemma_polyline_is_connected(points: Seq<Point>)
    ensures
        polyline(points).len() == SAMPLES / STRIDE + 1,
        polyline(points).first().from == points.first(),
        polyline(points).last().to == points.last(),
        forall|j: int|
            0 < j < polyline(points).len() ==> (#[trigger] polyline(points)[j]).from == polyline(
                points,
            )[j - 1].to,
{
}

} // verus!
