//! The pointer interaction: hovering over, grabbing, dragging and releasing
//! control points, one frame at a time.

use crate::curve::{shape, Bezier};
use crate::hit::{first_hit, hit_test, lemma_first_hit_is_first};
use crate::point::Point;
use vstd::prelude::*;

verus! {

/// What the pointer is doing between two frames.
#[derive(Clone, Copy, Debug, PartialEq, Eq)]
pub enum DragMode {
    /// Nothing is held. `selected` is the curve whose control points carry
    /// their coordinates as labels, if there is one.
    Off { selected: Option<usize> },
    /// Control point `i` of curve `b` is held and follows the cursor, which
    /// was last seen at `(x, y)`.
    On { b: usize, i: usize, x: i64, y: i64 },
}

/// The pointer icon to show.
#[derive(Clone, Copy, Debug, PartialEq, Eq, Structural)]
pub enum CursorStyle {
    /// The ordinary arrow.
    Arrow,
    /// An open hand: a control point is under the cursor and can be grabbed.
    OpenHand,
    /// A closed hand: a control point has been grabbed.
    ClosedHand,
}

/// What the pointer reports in one frame.
#[derive(Clone, Copy, Debug)]
pub struct Input {
    /// Where the cursor is, if it is over the canvas.
    pub cursor: Option<Point>,
    /// Whether the primary button is held down.
    pub pressed: bool,
}

/// What one frame of interaction leads to, besides moving a control point.
#[derive(Clone, Copy, Debug)]
pub struct Frame {
    /// The mode to carry into the next frame.
    pub state: DragMode,
    /// The pointer icon to switch to; nothing leaves the icon as it is.
    pub cursor_style: Option<CursorStyle>,
    /// The curve whose control points are labelled with their coordinates in
    /// this frame, if any.
    pub labelled: Option<usize>,
}

impl DragMode {
    /// The mode at the start: nothing held and nothing selected.
    pub open spec fn initial() -> DragMode {
        DragMode::Off { selected: None }
    }

    /// The mode only names curves and control points that exist.
    pub open spec fn wf(self, curves: Seq<Seq<Point>>) -> bool {
        match self {
            DragMode::Off { selected: None } => true,
            DragMode::Off { selected: Some(b) } => b < curves.len(),
            DragMode::On { b, i, x, y } => b < curves.len() && i < curves[b as int].len(),
        }
    }

    /// The mode at the start: nothing held and nothing selected.
    pub fn new() -> (state: DragMode)
        ensures
            state == DragMode::initial(),
    {
        DragMode::Off { selected: None }
    }
}

/// The outcome of one frame.
///
/// While nothing is held, a cursor over the canvas is tested against the
/// control points. On the first one touched, a pressed button grabs it and
/// labels its curve, and a released one only shows the open hand and labels
/// nothing in this frame; what is selected stays as it was. Touching nothing
/// shows the arrow and labels the selected curve. A cursor off the canvas
/// changes nothing.
///
/// While a point is held, a pressed button keeps it held, follows the
/// cursor while that is over the canvas, and labels the curve; a released
/// one lets go, shows the arrow, and leaves the curve selected.
pub open spec fn next_frame(state: DragMode, curves: Seq<Seq<Point>>, input: Input) -> Frame {
    match state {
        DragMode::Off { selected } => match input.cursor {
            None => Frame { state, cursor_style: None, labelled: selected },
            Some(at) => match first_hit(curves, at) {
                Some((b, i)) => if input.pressed {
                    Frame {
                        state: DragMode::On { b, i, x: at.x, y: at.y },
                        cursor_style: Some(CursorStyle::ClosedHand),
                        labelled: Some(b),
                    }
                } else {
                    Frame { state, cursor_style: Some(CursorStyle::OpenHand), labelled: None }
                },
                None => Frame {
                    state,
                    cursor_style: Some(CursorStyle::Arrow),
                    labelled: selected,
                },
            },
        },
        DragMode::On { b, i, x, y } => if input.pressed {
            match input.cursor {
                Some(at) => Frame {
                    state: DragMode::On { b, i, x: at.x, y: at.y },
                    cursor_style: None,
                    labelled: Some(b),
                },
                None => Frame { state, cursor_style: None, labelled: Some(b) },
            }
        } else {
            Frame {
                state: DragMode::Off { selected: Some(b) },
                cursor_style: Some(CursorStyle::Arrow),
                labelled: None,
            }
        },
    }
}

/// The control points after one frame: the held point moves to the cursor
/// while the button stays pressed and the cursor is over the canvas;
/// otherwise nothing moves.
pub open spec fn next_curves(state: DragMode, curves: Seq<Seq<Point>>, input: Input) -> Seq<
    Seq<Point>,
> {
    match (state, input.cursor) {
        (DragMode::On { b, i, x, y }, Some(at)) => if input.pressed {
            curves.update(b as int, curves[b as int].update(i as int, at))
        } else {
            curves
        },
        _ => curves,
    }
}

/// Advances the interaction by one frame: decides the next mode, the pointer
/// icon and the curve to label, and moves the held control point.
pub fn step(state: DragMode, curves: &mut Vec<Bezier>, input: Input) -> (frame: Frame)
    requires
        state.wf(shape(old(curves)@)),
    ensures
        frame == next_frame(state, shape(old(curves)@), input),
        shape(final(curves)@) == next_curves(state, shape(old(curves)@), input),
        frame.state.wf(shape(final(curves)@)),
        frame.labelled matches Some(b) ==> b < final(curves)@.len(),
{
    match state {
        DragMode::Off { selected } => {
            let mut labelled = selected;
            let mut next = state;
            let mut cursor_style: Option<CursorStyle> = None;
            if let Some(at) = input.cursor {
                match hit_test(curves, at) {
                    Some((b, i)) => {
                        if input.pressed {
                            next = DragMode::On { b, i, x: at.x, y: at.y };
                            labelled = Some(b);
                            cursor_style = Some(CursorStyle::ClosedHand);
                        } else {
                            labelled = None;
                            cursor_style = Some(CursorStyle::OpenHand);
                        }
                    },
                    None => {
                        cursor_style = Some(CursorStyle::Arrow);
                    },
                }
            }
            Frame { state: next, cursor_style, labelled }
        },
        DragMode::On { b, i, x, y } => {
            if input.pressed {
                let mut next = state;
                if let Some(at) = input.cursor {
                    next = DragMode::On { b, i, x: at.x, y: at.y };
                    curves[b].points[i] = at;
                    assert(shape(curves@) =~= next_curves(state, shape(old(curves)@), input));
                }
                Frame { state: next, cursor_style: None, labelled: Some(b) }
            } else {
                Frame {
                    state: DragMode::Off { selected: Some(b) },
                    cursor_style: Some(CursorStyle::Arrow),
                    labelled: None,
                }
            }
        },
    }
}

/// The mode and the control points after a run of frames, one per input.
pub open spec fn run(state: DragMode, curves: Seq<Seq<Point>>, inputs: Seq<Input>) -> (
    DragMode,
    Seq<Seq<Point>>,
)
    decreases inputs.len(),
{
    if inputs.len() == 0 {
        (state, curves)
    } else {
        let (before, shapes) = run(state, curves, inputs.drop_last());
        (
            next_frame(before, shapes, inputs.last()).state,
            next_curves(before, shapes, inputs.last()),
        )
    }
}

/// A frame moves at most one control point. The held point goes to the
/// cursor when the button is pressed and the cursor is over the canvas;
/// every other control point of every curve stays where it was, and no curve
/// gains or loses a point.
pub proof fn lemma_drag_moves_one_point(
    state: DragMode,
    curves: Seq<Seq<Point>>,
    input: Input,
    c: int,
    j: int,
)
    requires
        state.wf(curves),
        0 <= c < curves.len(),
        0 <= j < curves[c].len(),
    ensures
        next_curves(state, curves, input).len() == curves.len(),
        next_curves(state, curves, input)[c].len() == curves[c].len(),
        next_curves(state, curves, input)[c][j] == if state matches DragMode::On { b, i, .. }
            && b == c && i == j && input.pressed && input.cursor is Some {
            input.cursor.unwrap()
        } else {
            curves[c][j]
        },
{
}

/// Releasing the button lets go of the held point: the curve it belongs to
/// becomes the selected one, the arrow comes back, and nothing moves.
pub proof fn lemma_release_selects_curve(state: DragMode, curves: Seq<Seq<Point>>, input: Input)
    requires
        state is On,
        !input.pressed,
    ensures
        next_frame(state, curves, input).state == (DragMode::Off { selected: Some(state->b) }),
        next_frame(state, curves, input).cursor_style == Some(CursorStyle::Arrow),
        next_curves(state, curves, input) == curves,
{
}

/// While nothing is held, a frame either leaves the mode as it is or grabs a
/// point: the selection is never changed by a frame that does not start a
/// drag.
pub proof fn lemma_selection_changes_only_by_dragging(
    selected: Option<usize>,
    curves: Seq<Seq<Point>>,
    input: Input,
)
    ensures
        ({
            let next = next_frame(DragMode::Off { selected }, curves, input).state;
            next is On || next == (DragMode::Off { selected })
        }),
        !input.pressed ==> next_frame(DragMode::Off { selected }, curves, input).state == (
        DragMode::Off { selected }),
        next_curves(DragMode::Off { selected }, curves, input) == curves,
{
}

/// Moving the pointer about without pressing the button, over whichever
/// control points, keeps the selection: after any number of such frames the
/// mode and the control points are what they were.
pub proof fn lemma_hover_keeps_selection(
    selected: Option<usize>,
    curves: Seq<Seq<Point>>,
    inputs: Seq<Input>,
)
    requires
        forall|k: int| 0 <= k < inputs.len() ==> !(#[trigger] inputs[k]).pressed,
    ensures
        run(DragMode::Off { selected }, curves, inputs) == (DragMode::Off { selected }, curves),
    decreases inputs.len(),
{
    if inputs.len() > 0 {
        lemma_hover_keeps_selection(selected, curves, inputs.drop_last());
        lemma_selection_changes_only_by_dragging(selected, curves, inputs.last());
    }
}

/// A mode that only names control points that exist still does so after a
/// frame.
pub proof fn lemma_step_keeps_wf(state: DragMode, curves: Seq<Seq<Point>>, input: Input)
    requires
        state.wf(curves),
    ensures
        next_frame(state, curves, input).state.wf(next_curves(state, curves, input)),
        next_frame(state, curves, input).labelled matches Some(b) ==> b < curves.len(),
{
    if let Some(at) = input.cursor {
        lemma_first_hit_is_first(curves, at);
    }
}

} // verus!
