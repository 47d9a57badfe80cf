//! The deck's layout.
//!
//! [`draw_deck`] produces the panel's one frame: the surface dimensions and
//! the exact ordered sequence of paint operations that lays out the knobs,
//! faders, title bar and pad grid. [`draw_knob`] and [`draw_fader`] are the
//! reusable glyph helpers; each appends its operations to a command list and
//! relies on whatever stroke style the list has already selected.

use vstd::prelude::*;

use crate::paint::{Align, Color, Label, PaintOp};
use crate::paint::{lemma_stroke_set_repeat, stroke_set};
use crate::{SURFACE_HEIGHT, SURFACE_WIDTH};

verus! {

/// One rendered frame: the pixel dimensions the surface is set to, and the
/// operations painted onto it, in order.
pub struct Frame {
    /// The surface's pixel width.
    pub width: u32,
    /// The surface's pixel height.
    pub height: u32,
    /// The paint operations, replayed front to back.
    pub ops: Vec<PaintOp>,
}

/// The operations a knob glyph strokes: a circle of radius `r` centered at
/// `(x, y)`, then the indicator tick from the center straight up to the
/// circle's top edge.
pub open spec fn knob_ops(x: i32, y: i32, r: i32) -> Seq<PaintOp> {
    seq![
        PaintOp::StrokeCircle { cx: x, cy: y, r: r },
        PaintOp::StrokeLine { x0: x, y0: y, x1: x, y1: (y - r) as i32 },
    ]
}

/// The operations a fader glyph strokes: the thin vertical track, one
/// half-pixel-pair wide and `h` tall with top-left corner `(x, y)`, then the
/// 30x15-pixel cap centered on the track and ending 7.5 pixels above it
/// (in half-pixel units: a 60x30 rectangle at `(x - 30, y - 15)`).
pub open spec fn fader_ops(x: i32, y: i32, h: i32) -> Seq<PaintOp> {
    seq![
        PaintOp::StrokeRect { x: x, y: y, w: 2, h: h },
        PaintOp::StrokeRect { x: (x - 30) as i32, y: (y - 15) as i32, w: 60, h: 30 },
    ]
}

/// Append a knob glyph — circle plus upward tick — to the command list.
/// The glyph uses whatever stroke style the list last selected; it selects
/// none of its own.
pub fn draw_knob(ops: &mut Vec<PaintOp>, x: i32, y: i32, r: i32)
    requires
        i32::MIN <= y - r <= i32::MAX,
    ensures
        final(ops)@ == old(ops)@ + knob_ops(x, y, r),
{
    ops.push(PaintOp::StrokeCircle { cx: x, cy: y, r });
    let y1: i32 = y - r;
    ops.push(PaintOp::StrokeLine { x0: x, y0: y, x1: x, y1 });
    proof {
        assert(ops@ =~= old(ops)@ + knob_ops(x, y, r));
    }
}

/// Append a fader glyph — track plus cap — to the command list. The glyph
/// uses whatever stroke style the list last selected; it selects none of
/// its own.
pub fn draw_fader(ops: &mut Vec<PaintOp>, x: i32, y: i32, h: i32)
    requires
        i32::MIN <= x - 30,
        i32::MIN <= y - 15,
    ensures
        final(ops)@ == old(ops)@ + fader_ops(x, y, h),
{
    ops.push(PaintOp::StrokeRect { x, y, w: 2, h });
    let cap_x: i32 = x - 30;
    let cap_y: i32 = y - 15;
    ops.push(PaintOp::StrokeRect { x: cap_x, y: cap_y, w: 60, h: 30 });
    proof {
        assert(ops@ =~= old(ops)@ + fader_ops(x, y, h));
    }
}

/// Appending a knob glyph a second time with the same arguments strokes no
/// new shape: the image is pixel-equal to the one the first glyph left.
pub proof fn lemma_draw_knob_idempotent(prefix: Seq<PaintOp>, x: i32, y: i32, r: i32)
    ensures
        stroke_set(prefix + knob_ops(x, y, r) + knob_ops(x, y, r)) == stroke_set(
            prefix + knob_ops(x, y, r),
        ),
{
    lemma_stroke_set_repeat(prefix, knob_ops(x, y, r));
}

/// Appending a fader glyph a second time with the same arguments strokes no
/// new shape: the image is pixel-equal to the one the first glyph left.
pub proof fn lemma_draw_fader_idempotent(prefix: Seq<PaintOp>, x: i32, y: i32, h: i32)
    ensures
        stroke_set(prefix + fader_ops(x, y, h) + fader_ops(x, y, h)) == stroke_set(
            prefix + fader_ops(x, y, h),
        ),
{
    lemma_stroke_set_repeat(prefix, fader_ops(x, y, h));
}

/// The frame's full paint sequence, front to back: context setup, the
/// background fill, the four knobs, the two faders, the two text runs, the
/// display rectangle and the three-pad grid. Coordinates are in half-pixel
/// units.
pub open spec fn deck_ops() -> Seq<PaintOp> {
    seq![
        // Half-pixel shift so one-pixel strokes land on pixel boundaries.
        PaintOp::Translate { dx: -1i32, dy: -1i32 },
        PaintOp::TextBaselineMiddle,
        PaintOp::SetPanelFont,
        PaintOp::SetFill { color: Color::Panel },
        // The background fill covers 640x400 pixels, more than the surface:
        // kept as-is for compatibility with what the panel has always drawn.
        PaintOp::FillRect { x: 0, y: 0, w: 1280, h: 800 },
        PaintOp::SetLineWidth { width: 2 },
        PaintOp::SetStroke { color: Color::Trace },
    ] + knob_ops(225, 53, 20) + knob_ops(150, 60, 30) + knob_ops(150, 150, 30) + knob_ops(
        150,
        240,
        30,
    ) + fader_ops(60, 60, 180) + fader_ops(1050, 60, 180) + seq![
        PaintOp::SetFill { color: Color::Ink },
        PaintOp::FillText { label: Label::SongTitle, x: 270, y: 54, align: Align::Left },
        PaintOp::FillText { label: Label::ClockZero, x: 990, y: 54, align: Align::Right },
        PaintOp::StrokeRect { x: 210, y: 105, w: 780, h: 180 },
        PaintOp::StrokeRect { x: 210, y: 300, w: 90, h: 90 },
        PaintOp::StrokeRect { x: 310, y: 300, w: 90, h: 90 },
        PaintOp::StrokeRect { x: 410, y: 300, w: 90, h: 90 },
    ]
}

/// Render the deck. The frame always measures 555x210 pixels, whatever the
/// surface held before, and its operations are exactly [`deck_ops`].
pub fn draw_deck() -> (frame: Frame)
    ensures
        frame.width == SURFACE_WIDTH,
        frame.height == SURFACE_HEIGHT,
        frame.ops@ == deck_ops(),
{
    let mut ops: Vec<PaintOp> = Vec::new();
    ops.push(PaintOp::Translate { dx: -1, dy: -1 });
    ops.push(PaintOp::TextBaselineMiddle);
    ops.push(PaintOp::SetPanelFont);
    ops.push(PaintOp::SetFill { color: Color::Panel });
    ops.push(PaintOp::FillRect { x: 0, y: 0, w: 1280, h: 800 });
    ops.push(PaintOp::SetLineWidth { width: 2 });
    ops.push(PaintOp::SetStroke { color: Color::Trace });

    draw_knob(&mut ops, 225, 53, 20);
    draw_knob(&mut ops, 150, 60, 30);
    draw_knob(&mut ops, 150, 150, 30);
    draw_knob(&mut ops, 150, 240, 30);

    draw_fader(&mut ops, 60, 60, 180);
    draw_fader(&mut ops, 1050, 60, 180);

    ops.push(PaintOp::SetFill { color: Color::Ink });
    ops.push(PaintOp::FillText { label: Label::SongTitle, x: 270, y: 54, align: Align::Left });
    ops.push(PaintOp::FillText { label: Label::ClockZero, x: 990, y: 54, align: Align::Right });

    ops.push(PaintOp::StrokeRect { x: 210, y: 105, w: 780, h: 180 });

    ops.push(PaintOp::StrokeRect { x: 210, y: 300, w: 90, h: 90 });
    ops.push(PaintOp::StrokeRect { x: 310, y: 300, w: 90, h: 90 });
    ops.push(PaintOp::StrokeRect { x: 410, y: 300, w: 90, h: 90 });

    proof {
        assert(ops@ =~= deck_ops());
    }
    Frame { width: SURFACE_WIDTH, height: SURFACE_HEIGHT, ops }
}

} // verus!
