//! Bezier curves and their evaluation by repeated pairwise interpolation.

use crate::param::{lerp, Param};
use crate::point::Point;
use vstd::prelude::*;

verus! {

/// The point at `t = num / den` on the straight line from `p` to `q`, each
/// coordinate interpolated and truncated on its own.
pub open spec fn lerp_point(p: Point, q: Point, num: int, den: int) -> Point {
    Point {
        x: lerp(p.x as int, q.x as int, num, den) as i64,
        y: lerp(p.y as int, q.y as int, num, den) as i64,
    }
}

/// One reduction step: every pair of neighbours is replaced by the point
/// interpolated between them, which leaves one point fewer.
pub open spec fn reduce(points: Seq<Point>, num: int, den: int) -> Seq<Point> {
    Seq::new(
        (points.len() - 1) as nat,
        |k: int| lerp_point(points[k], points[k + 1], num, den),
    )
}

/// The point of the curve with control points `points` at `t = num / den`:
/// nothing for an empty list, the point itself for a single one, and
/// otherwise the point of the reduced list.
pub open spec fn curve_point(points: Seq<Point>, num: int, den: int) -> Option<Point>
    decreases points.len(),
{
    if points.len() == 0 {
        None
    } else if points.len() == 1 {
        Some(points[0])
    } else {
        curve_point(reduce(points, num, den), num, den)
    }
}

/// `points` after `steps` reduction steps.
pub open spec fn reduce_times(points: Seq<Point>, num: int, den: int, steps: nat) -> Seq<Point>
    decreases steps,
{
    if steps == 0 {
        points
    } else {
        reduce_times(reduce(points, num, den), num, den, (steps - 1) as nat)
    }
}

/// Evaluates the curve with control points `points` at `t`. Only an empty
/// list has no point.
pub fn draw_curve_point(points: &[Point], t: Param) -> (r: Option<Point>)
    ensures
        r == curve_point(points@, t.numer(), t.denom()),
        r is None <==> points@.len() == 0,
    decreases points.len(),
{
    if points.len() == 0 {
        return None;
    }
    if points.len() == 1 {
        return Some(points[0]);
    }
    let mut new_points: Vec<Point> = Vec::with_capacity(points.len() - 1);
    let mut k: usize = 0;
    while k + 1 < points.len()
        invariant
            points.len() >= 2,
            k + 1 <= points.len(),
            new_points@.len() == k,
            forall|j: int|
                0 <= j < k ==> new_points@[j] == lerp_point(
                    points@[j],
                    points@[j + 1],
                    t.numer(),
                    t.denom(),
                ),
        decreases points.len() - k,
    {
        let a = points[k];
        let b = points[k + 1];
        let x = t.interpolate(a.x, b.x);
        let y = t.interpolate(a.y, b.y);
        new_points.push(Point { x, y });
        k += 1;
    }
    assert(new_points@ =~= reduce(points@, t.numer(), t.denom()));
    draw_curve_point(new_points.as_slice(), t)
}

/// A Bezier curve, given by its control points in order.
pub struct Bezier {
    pub points: Vec<Point>,
}

impl View for Bezier {
    type V = Seq<Point>;

    open spec fn view(&self) -> Seq<Point> {
        self.points@
    }
}

impl Bezier {
    /// A curve has at least one control point.
    pub open spec fn wf(&self) -> bool {
        self@.len() >= 1
    }

    /// The curve with the given control points.
    pub fn new(points: Vec<Point>) -> (c: Bezier)
        ensures
            c@ == points@,
    {
        Bezier { points }
    }

    /// The point of the curve at `t`; nothing if the curve has no control
    /// points.
    pub fn get_point(&self, t: Param) -> (r: Option<Point>)
        ensures
            r == curve_point(self@, t.numer(), t.denom()),
            r is Some <==> self.wf(),
    {
        draw_curve_point(self.points.as_slice(), t)
    }
}

/// The control points of a set of curves, curve by curve.
pub open spec fn shape(curves: Seq<Bezier>) -> Seq<Seq<Point>> {
    Seq::new(curves.len(), |b: int| curves[b]@)
}

/// A list with at least one control point always evaluates to a point, and
/// an empty list never does.
pub proof fn lemma_curve_point_some(points: Seq<Point>, num: int, den: int)
    ensures
        curve_point(points, num, den) is Some <==> points.len() >= 1,
    decreases points.len(),
{
    if points.len() >= 2 {
        lemma_curve_point_some(reduce(points, num, den), num, den);
    }
}

/// Evaluation is repeated reduction: a list of `n >= 1` control points is
/// reduced `n - 1` times, which leaves exactly one point, and that point is
/// the value of the curve. A single control point is its own value.
pub proof fn lemma_evaluation_is_repeated_reduction(points: Seq<Point>, num: int, den: int)
    requires
        points.len() >= 1,
    ensures
        reduce_times(points, num, den, (points.len() - 1) as nat).len() == 1,
        curve_point(points, num, den) == Some(
            reduce_times(points, num, den, (points.len() - 1) as nat)[0],
        ),
        points.len() == 1 ==> curve_point(points, num, den) == Some(points[0]),
    decreases points.len(),
{
    if points.len() >= 2 {
        lemma_evaluation_is_repeated_reduction(reduce(points, num, den), num, den);
    }
}

/// At `t = 0` an interpolated coordinate is the first one, at `t = 1` the
/// second one.
pub proof fn lemma_lerp_ends(a: i64, b: i64, den: int)
    requires
        den > 0,
    ensures
        lerp(a as int, b as int, 0, den) == a,
        lerp(a as int, b as int, den, den) == b,
{
    lemma_trunc_div_of_multiple(a as int, den);
    lemma_trunc_div_of_multiple(b as int, den);
    assert((den - 0) * (a as int) + 0 * (b as int) == den * a);
    assert((den - den) * (a as int) + den * (b as int) == den * b);
}

/// For `t` within `0..=1` an interpolated coordinate lies between the two
/// it was interpolated from, so it is never cut to the range of a coordinate.
pub proof fn lemma_lerp_between(a: i64, b: i64, num: int, den: int)
    requires
        0 <= num <= den,
        den > 0,
    ensures
        a <= b ==> a <= lerp(a as int, b as int, num, den) <= b,
        b <= a ==> b <= lerp(a as int, b as int, num, den) <= a,
        lerp(a as int, b as int, num, den) == crate::param::trunc_div(
            (den - num) * a + num * b,
            den,
        ),
{
    let lo: int = if a <= b { a as int } else { b as int };
    let hi: int = if a <= b { b as int } else { a as int };
    let n: int = (den - num) * a + num * b;
    assert(den * lo <= n <= den * hi) by (nonlinear_arith)
        requires
            0 <= num <= den,
            lo <= a <= hi,
            lo <= b <= hi,
            n == (den - num) * a + num * b,
    ;
    lemma_trunc_div_bounds(n, den, lo, hi);
}

/// At `t = 0` a two-point curve is at its first control point, and at
/// `t = 1` at its second.
pub proof fn lemma_two_point_ends(p: Point, q: Point, den: int)
    requires
        den > 0,
    ensures
        curve_point(seq![p, q], 0, den) == Some(p),
        curve_point(seq![p, q], den, den) == Some(q),
{
    lemma_curve_ends(seq![p, q], den);
}

/// At `t = 0` a curve is at its first control point, and at `t = 1` at its
/// last.
pub proof fn lemma_curve_ends(points: Seq<Point>, den: int)
    requires
        points.len() >= 1,
        den > 0,
    ensures
        curve_point(points, 0, den) == Some(points.first()),
        curve_point(points, den, den) == Some(points.last()),
    decreases points.len(),
{
    if points.len() >= 2 {
        let front = reduce(points, 0, den);
        let back = reduce(points, den, den);
        assert forall|k: int| 0 <= k < points.len() - 1 implies front[k] == points[k] && back[k]
            == points[k + 1] by {
            lemma_lerp_ends(points[k].x, points[k + 1].x, den);
            lemma_lerp_ends(points[k].y, points[k + 1].y, den);
        }
        lemma_curve_ends(front, den);
        lemma_curve_ends(back, den);
    }
}

proof fn lemma_trunc_div_of_multiple(v: int, den: int)
    requires
        den > 0,
    ensures
        crate::param::trunc_div(den * v, den) == v,
{
    if v >= 0 {
        assert(den * v >= 0 && (den * v) / den == v) by (nonlinear_arith)
            requires
                den > 0,
                v >= 0,
        ;
    } else {
        assert(den * v < 0 && (-(den * v)) / den == -v) by (nonlinear_arith)
            requires
                den > 0,
                v < 0,
        ;
    }
}

proof fn lemma_trunc_div_bounds(n: int, den: int, lo: int, hi: int)
    requires
        den > 0,
        den * lo <= n <= den * hi,
    ensures
        lo <= crate::param::trunc_div(n, den) <= hi,
{
    if n >= 0 {
        assert(lo <= n / den <= hi) by (nonlinear_arith)
            requires
                den > 0,
                n >= 0,
                den * lo <= n <= den * hi,
        ;
    } else {
        assert(lo <= -((-n) / den) <= hi) by (nonlinear_arith)
            requires
                den > 0,
                n < 0,
                den * lo <= n <= den * hi,
        ;
    }
}

} // verus!
