//! Primitive paint operations.
//!
//! The deck is painted through a stateful 2D context; here each call the
//! panel makes on that context is one value of [`PaintOp`]. All coordinates
//! and lengths are in half-pixel units, so that every position the layout
//! uses — including half-pixel centers and the half-pixel anti-aliasing
//! shift — is an exact integer. The host divides by two when it replays the
//! operations on the real context.

use vstd::prelude::*;

verus! {

/// Horizontal anchoring of a text run: the anchor point is the left or the
/// right edge of the rendered text.
#[derive(Clone, Copy, Debug, PartialEq, Eq, Structural)]
pub enum Align {
    Left,
    Right,
}

/// The three colors the panel uses. The host maps each to its CSS name,
/// given by [`Color::css`].
#[derive(Clone, Copy, Debug, PartialEq, Eq, Structural)]
pub enum Color {
    /// The near-black background of the panel, `#111`.
    Panel,
    /// The light gray used for every stroked outline, `#aaa`.
    Trace,
    /// The white used for text, `#fff`.
    Ink,
}

/// The two text runs the panel shows. The host maps each to its characters,
/// given by [`Label::text`].
#[derive(Clone, Copy, Debug, PartialEq, Eq, Structural)]
pub enum Label {
    /// The placeholder track name, "Song Title".
    SongTitle,
    /// The zeroed time display, "00:00".
    ClockZero,
}

/// One primitive operation on the 2D paint context. Coordinates, lengths and
/// radii are in half-pixel units.
#[derive(Clone, Copy, Debug, PartialEq, Eq, Structural)]
pub enum PaintOp {
    /// Shift the context's coordinate system by `(dx, dy)`.
    Translate { dx: i32, dy: i32 },
    /// Anchor text vertically at its middle.
    TextBaselineMiddle,
    /// Select the panel's one typeface: a bold 15-pixel sans-serif face.
    SetPanelFont,
    /// Select the fill color.
    SetFill { color: Color },
    /// Select the stroke color.
    SetStroke { color: Color },
    /// Select the stroke width.
    SetLineWidth { width: i32 },
    /// Fill the axis-aligned rectangle with top-left corner `(x, y)`.
    FillRect { x: i32, y: i32, w: i32, h: i32 },
    /// Stroke the outline of the axis-aligned rectangle with top-left
    /// corner `(x, y)`.
    StrokeRect { x: i32, y: i32, w: i32, h: i32 },
    /// Stroke the full circle of radius `r` centered at `(cx, cy)`.
    StrokeCircle { cx: i32, cy: i32, r: i32 },
    /// Stroke the straight segment from `(x0, y0)` to `(x1, y1)`.
    StrokeLine { x0: i32, y0: i32, x1: i32, y1: i32 },
    /// Draw a text run anchored at `(x, y)`.
    FillText { label: Label, x: i32, y: i32, align: Align },
}

impl Color {
    /// The CSS color the host hands to the context for this color.
    pub fn css(&self) -> (r: &'static str)
        ensures
            r@ == self.css_spec(),
    {
        match self {
            Color::Panel => "#111",
            Color::Trace => "#aaa",
            Color::Ink => "#fff",
        }
    }

    /// The characters of the CSS name of this color.
    pub open spec fn css_spec(self) -> Seq<char> {
        match self {
            Color::Panel => "#111"@,
            Color::Trace => "#aaa"@,
            Color::Ink => "#fff"@,
        }
    }
}

impl Label {
    /// The characters the host hands to the context for this text run.
    pub fn text(&self) -> (r: &'static str)
        ensures
            r@ == self.text_spec(),
    {
        match self {
            Label::SongTitle => "Song Title",
            Label::ClockZero => "00:00",
        }
    }

    /// The characters of this text run.
    pub open spec fn text_spec(self) -> Seq<char> {
        match self {
            Label::SongTitle => "Song Title"@,
            Label::ClockZero => "00:00"@,
        }
    }
}

/// Whether an operation strokes a shape (rather than filling, drawing text
/// or changing context state).
pub open spec fn is_stroke_op(op: PaintOp) -> bool {
    match op {
        PaintOp::StrokeRect { .. } => true,
        PaintOp::StrokeCircle { .. } => true,
        PaintOp::StrokeLine { .. } => true,
        _ => false,
    }
}

/// The set of shapes a sequence of operations strokes.
///
/// Under a fixed stroke style, the image a run of stroke operations leaves
/// on the surface depends only on this set: stroking the same shape a
/// second time paints the same pixels the same color. The set is therefore
/// the model under which repeated glyphs are compared.
pub open spec fn stroke_set(ops: Seq<PaintOp>) -> Set<PaintOp>
    decreases ops.len(),
{
    if ops.len() == 0 {
        Set::empty()
    } else if is_stroke_op(ops.last()) {
        stroke_set(ops.drop_last()).insert(ops.last())
    } else {
        stroke_set(ops.drop_last())
    }
}

/// The shapes stroked by two sequences run one after the other are the
/// shapes stroked by each, taken together.
pub proof fn lemma_stroke_set_concat(a: Seq<PaintOp>, b: Seq<PaintOp>)
    ensures
        stroke_set(a + b) == stroke_set(a) + stroke_set(b),
    decreases b.len(),
{
    if b.len() == 0 {
        assert(a + b =~= a);
        assert(stroke_set(a) + stroke_set(b) =~= stroke_set(a));
    } else {
        lemma_stroke_set_concat(a, b.drop_last());
        assert((a + b).drop_last() =~= a + b.drop_last());
        assert((a + b).last() == b.last());
        assert(stroke_set(a + b) =~= stroke_set(a) + stroke_set(b));
    }
}

/// Running a sequence of operations twice in a row strokes the same shapes
/// as running it once: a repeated run changes no pixel of the image.
pub proof fn lemma_stroke_set_repeat(prefix: Seq<PaintOp>, run: Seq<PaintOp>)
    ensures
        stroke_set(prefix + run + run) == stroke_set(prefix + run),
{
    lemma_stroke_set_concat(prefix, run);
    lemma_stroke_set_concat(prefix + run, run);
    assert(stroke_set(prefix + run + run) =~= stroke_set(prefix + run));
}

} // verus!
