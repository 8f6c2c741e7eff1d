//! Finding the control point under the cursor.

use crate::curve::{shape, Bezier};
use crate::point::Point;
use vstd::prelude::*;

verus! {

/// How close, in pixels along each axis, the cursor has to be to a control
/// point to touch it: strictly closer than this.
pub const REACH: i64 = 4;

/// The distance between two coordinates.
pub open spec fn distance(a: int, b: int) -> int {
    if a <= b {
        b - a
    } else {
        a - b
    }
}

/// The cursor touches a control point when it is closer than `REACH` to it
/// along both axes.
pub open spec fn touches(p: Point, cursor: Point) -> bool {
    distance(p.x as int, cursor.x as int) < REACH && distance(p.y as int, cursor.y as int) < REACH
}

/// Point `i` of curve `b` is touched by the cursor, and no point before it
/// is: none of an earlier curve, and none earlier in the same curve.
pub open spec fn is_first_hit(curves: Seq<Seq<Point>>, cursor: Point, b: int, i: int) -> bool {
    &&& 0 <= b < curves.len()
    &&& 0 <= i < curves[b].len()
    &&& touches(curves[b][i], cursor)
    &&& forall|c: int, j: int|
        0 <= c < curves.len() && 0 <= j < curves[c].len() && (c < b || (c == b && j < i))
            ==> !touches(#[trigger] curves[c][j], cursor)
}

/// The control point that the cursor picks: of all the points it touches,
/// the one of the lowest curve, and within that curve the lowest point.
pub open spec fn first_hit(curves: Seq<Seq<Point>>, cursor: Point) -> Option<(usize, usize)> {
    if exists|b: usize, i: usize| is_first_hit(curves, cursor, b as int, i as int) {
        Some(choose|h: (usize, usize)| is_first_hit(curves, cursor, h.0 as int, h.1 as int))
    } else {
        None
    }
}

/// Whether the cursor touches the control point `p`.
pub fn is_pressed(p: &Point, cursor: Point) -> (hit: bool)
    ensures
        hit == touches(*p, cursor),
{
    let dx: i128 = p.x as i128 - cursor.x as i128;
    let dy: i128 = p.y as i128 - cursor.y as i128;
    let reach: i128 = REACH as i128;
    -reach < dx && dx < reach && -reach < dy && dy < reach
}

/// Looks for the control point under the cursor, curve by curve and point
/// by point, and stops at the first one touched.
pub fn hit_test(curves: &Vec<Bezier>, cursor: Point) -> (hit: Option<(usize, usize)>)
    ensures
        hit == first_hit(shape(curves@), cursor),
        hit matches Some((b, i)) ==> is_first_hit(shape(curves@), cursor, b as int, i as int),
        hit is None ==> forall|c: int, j: int|
            0 <= c < curves@.len() && 0 <= j < shape(curves@)[c].len() ==> !touches(
                #[trigger] shape(curves@)[c][j],
                cursor,
            ),
{
    let ghost all = shape(curves@);
    let mut b: usize = 0;
    while b < curves.len()
        invariant
            b <= curves.len(),
            all == shape(curves@),
            forall|c: int, j: int|
                0 <= c < b && 0 <= j < all[c].len() ==> !touches(#[trigger] all[c][j], cursor),
        decreases curves.len() - b,
    {
        let c = &curves[b];
        let mut i: usize = 0;
        while i < c.points.len()
            invariant
                b < curves.len(),
                all == shape(curves@),
                c@ == all[b as int],
                i <= c.points.len(),
                forall|c: int, j: int|
                    0 <= c < b && 0 <= j < all[c].len() ==> !touches(
                        #[trigger] all[c][j],
                        cursor,
                    ),
                forall|j: int| 0 <= j < i ==> !touches(#[trigger] all[b as int][j], cursor),
            decreases c.points.len() - i,
        {
            if is_pressed(&c.points[i], cursor) {
                proof {
                    assert(is_first_hit(all, cursor, b as int, i as int));
                    lemma_first_hit_is_unique(all, cursor);
                }
                return Some((b, i));
            }
            i += 1;
        }
        b += 1;
    }
    proof {
        assert forall|c: usize, j: usize| !is_first_hit(all, cursor, c as int, j as int) by {
            if 0 <= c < all.len() && 0 <= j < all[c as int].len() {
                assert(!touches(all[c as int][j as int], cursor));
            }
        }
    }
    None
}

/// Touching goes both ways: the cursor touches a point exactly when a
/// cursor at that point would touch the place where the cursor is.
pub proof fn lemma_touches_is_symmetric(p: Point, cursor: Point)
    ensures
        touches(p, cursor) == touches(cursor, p),
{
}

/// The control point that `first_hit` gives is touched, and no point before
/// it is.
pub proof fn lemma_first_hit_is_first(curves: Seq<Seq<Point>>, cursor: Point)
    ensures
        first_hit(curves, cursor) matches Some((b, i)) ==> is_first_hit(
            curves,
            cursor,
            b as int,
            i as int,
        ),
{
    if exists|b: usize, i: usize| is_first_hit(curves, cursor, b as int, i as int) {
        let (b, i) = choose|b: usize, i: usize| is_first_hit(curves, cursor, b as int, i as int);
        assert(is_first_hit(curves, cursor, (b, i).0 as int, (b, i).1 as int));
    }
}

/// At most one control point is the first one touched, and it is the one
/// that `first_hit` gives.
pub proof fn lemma_first_hit_is_unique(curves: Seq<Seq<Point>>, cursor: Point)
    ensures
        forall|b: usize, i: usize| #[trigger]
            is_first_hit(curves, cursor, b as int, i as int) ==> first_hit(curves, cursor) == Some(
                (b, i),
            ),
{
    assert forall|b: usize, i: usize| #[trigger]
        is_first_hit(curves, cursor, b as int, i as int) implies first_hit(curves, cursor) == Some(
        (b, i),
    ) by {
        let h = choose|h: (usize, usize)| is_first_hit(curves, cursor, h.0 as int, h.1 as int);
        assert(is_first_hit(curves, cursor, (b, i).0 as int, (b, i).1 as int));
        assert(touches(curves[h.0 as int][h.1 as int], cursor));
        assert(touches(curves[b as int][i as int], cursor));
    }
}

/// Of two control points that the cursor touches, the one that comes first,
/// by curve and then by point, wins: the point picked is never after
/// either of them.
pub proof fn lemma_lowest_touched_point_wins(
    curves: Seq<Seq<Point>>,
    cursor: Point,
    c: int,
    j: int,
)
    requires
        curves.len() <= usize::MAX,
        forall|k: int| 0 <= k < curves.len() ==> (#[trigger] curves[k]).len() <= usize::MAX,
        0 <= c < curves.len(),
        0 <= j < curves[c].len(),
        touches(curves[c][j], cursor),
    ensures
        first_hit(curves, cursor) matches Some((b, i)) && is_first_hit(
            curves,
            cursor,
            b as int,
            i as int,
        ) && (b < c || (b == c && i <= j)),
    decreases c, j,
{
    if exists|c2: int, j2: int|
        0 <= c2 < curves.len() && 0 <= j2 < curves[c2].len() && (c2 < c || (c2 == c && j2 < j))
            && touches(#[trigger] curves[c2][j2], cursor) {
        let (c2, j2) = choose|c2: int, j2: int|
            0 <= c2 < curves.len() && 0 <= j2 < curves[c2].len() && (c2 < c || (c2 == c && j2
                < j)) && touches(#[trigger] curves[c2][j2], cursor);
        lemma_lowest_touched_point_wins(curves, cursor, c2, j2);
    } else {
        assert(is_first_hit(curves, cursor, c as usize as int, j as usize as int));
        lemma_first_hit_is_unique(curves, cursor);
    }
}

} // verus!
