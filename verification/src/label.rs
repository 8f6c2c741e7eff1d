//! The coordinate labels shown beside the control points of a curve.

use crate::curve::Bezier;
use crate::point::Point;
use vstd::prelude::*;
use vstd::string::StringExecFns;

verus! {

/// A piece of text and the place on the canvas where it starts.
#[derive(Clone, Debug)]
pub struct Label {
    pub text: String,
    pub at: Point,
}

/// The character of a decimal digit.
pub open spec fn digit(d: int) -> char {
    seq!['0', '1', '2', '3', '4', '5', '6', '7', '8', '9'][d]
}

/// The decimal digits of `n`, most significant first, without leading zeros.
pub open spec fn digits(n: nat) -> Seq<char>
    decreases n,
{
    if n < 10 {
        seq![digit(n as int)]
    } else {
        digits(n / 10).push(digit((n % 10) as int))
    }
}

/// `v` in decimal, with a minus sign in front if it is negative.
pub open spec fn decimal(v: int) -> Seq<char> {
    if v < 0 {
        seq!['-'] + digits((-v) as nat)
    } else {
        digits(v as nat)
    }
}

/// The text of the label of a control point: `(x, y)`.
pub open spec fn coordinates(p: Point) -> Seq<char> {
    seq!['('] + decimal(p.x as int) + seq![',', ' '] + decimal(p.y as int) + seq![')']
}

/// Where the label of a control point starts: at the point, one glyph
/// height further down.
pub open spec fn anchor(p: Point, glyph_height: int) -> Point {
    Point { x: p.x, y: (p.y + glyph_height) as i64 }
}

fn digit_str(d: u64) -> (s: &'static str)
    requires
        d < 10,
    ensures
        s@ == seq![digit(d as int)],
{
    proof {
        reveal_strlit("0");
        reveal_strlit("1");
        reveal_strlit("2");
        reveal_strlit("3");
        reveal_strlit("4");
        reveal_strlit("5");
        reveal_strlit("6");
        reveal_strlit("7");
        reveal_strlit("8");
        reveal_strlit("9");
    }
    if d == 0 {
        "0"
    } else if d == 1 {
        "1"
    } else if d == 2 {
        "2"
    } else if d == 3 {
        "3"
    } else if d == 4 {
        "4"
    } else if d == 5 {
        "5"
    } else if d == 6 {
        "6"
    } else if d == 7 {
        "7"
    } else if d == 8 {
        "8"
    } else {
        "9"
    }
}

fn push_digits(text: &mut String, n: u64)
    ensures
        final(text)@ == old(text)@ + digits(n as nat),
    decreases n,
{
    if n >= 10 {
        push_digits(text, n / 10);
    }
    text.append(digit_str(n % 10));
    assert(final(text)@ =~= old(text)@ + digits(n as nat));
}

fn push_decimal(text: &mut String, v: i64)
    ensures
        final(text)@ == old(text)@ + decimal(v as int),
{
    if v < 0 {
        proof {
            reveal_strlit("-");
        }
        text.append("-");
        let magnitude: u64 = (-(v as i128)) as u64;
        push_digits(text, magnitude);
    } else {
        push_digits(text, v as u64);
    }
    assert(final(text)@ =~= old(text)@ + decimal(v as int));
}

/// Writes out the coordinates of a control point as `(x, y)`.
pub fn coordinates_text(p: Point) -> (text: String)
    ensures
        text@ == coordinates(p),
{
    proof {
        reveal_strlit("(");
        reveal_strlit(", ");
        reveal_strlit(")");
    }
    let mut text = String::from_str("(");
    push_decimal(&mut text, p.x);
    text.append(", ");
    push_decimal(&mut text, p.y);
    text.append(")");
    assert(text@ =~= coordinates(p));
    text
}

/// The labels of a curve: for each control point, in order, its coordinates
/// as text, placed one glyph height below the point.
pub fn curve_labels(c: &Bezier, glyph_height: i64) -> (labels: Vec<Label>)
    requires
        forall|k: int|
            0 <= k < c@.len() ==> i64::MIN <= (#[trigger] c@[k]).y + glyph_height <= i64::MAX,
    ensures
        labels@.len() == c@.len(),
        forall|k: int|
            0 <= k < c@.len() ==> (#[trigger] labels@[k]).text@ == coordinates(c@[k])
                && labels@[k].at == anchor(c@[k], glyph_height as int),
{
    let mut labels: Vec<Label> = Vec::new();
    let mut k: usize = 0;
    while k < c.points.len()
        invariant
            k <= c.points.len(),
            labels@.len() == k,
            forall|j: int|
                0 <= j < c@.len() ==> i64::MIN <= (#[trigger] c@[j]).y + glyph_height <= i64::MAX,
            forall|j: int|
                0 <= j < k ==> (#[trigger] labels@[j]).text@ == coordinates(c@[j]) && labels@[j].at
                    == anchor(c@[j], glyph_height as int),
        decreases c.points.len() - k,
    {
        let p = c.points[k];
        assert(p == c@[k as int]);
        let at = Point { x: p.x, y: p.y + glyph_height };
        labels.push(Label { text: coordinates_text(p), at });
        k += 1;
    }
    labels
}

} // verus!
