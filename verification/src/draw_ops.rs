//! The drawing vocabulary the renderers emit.
//!
//! The engine owns *where* everything goes; rasterization is an external
//! collaborator. Each renderer therefore returns an ordered list of draw
//! operations — lines, anchored text, rectangle outlines — in absolute pixel
//! coordinates, and the caller carries them to a backend.

use vstd::prelude::*;

use crate::area::Rect;
use crate::MAX_PIXEL;

verus! {

/// A line's thickness (in milli-pixels, so a width of 1250 is 1.25px) and
/// its color, packed as 0xRRGGBBAA.
#[derive(Clone, Copy, Debug, PartialEq, Eq, Structural)]
pub struct Stroke {
    pub width_millis: i64,
    pub color: u32,
}

impl Stroke {
    pub open spec fn wf(self) -> bool {
        0 <= self.width_millis <= MAX_PIXEL
    }

    pub fn new(width_millis: i64, color: u32) -> (s: Stroke)
        requires
            0 <= width_millis <= MAX_PIXEL,
        ensures
            s == (Stroke { width_millis, color }),
            s.wf(),
    {
        Stroke { width_millis, color }
    }
}

/// The 2px black stroke used for head and body outlines.
pub open spec fn spec_outline_stroke() -> Stroke {
    Stroke { width_millis: 2000int as i64, color: 0x0000_00ffu32 }
}

/// The 2px black stroke used for head and body outlines.
pub fn outline_stroke() -> (s: Stroke)
    ensures
        s == spec_outline_stroke(),
        s.wf(),
{
    Stroke { width_millis: 2000, color: 0x0000_00ff }
}

/// The thin grey stroke of light mesh lines and ticks.
pub open spec fn spec_light_mesh_stroke() -> Stroke {
    Stroke { width_millis: 1000int as i64, color: 0xd0d0_d0ffu32 }
}

/// The thin grey stroke of light mesh lines and ticks.
pub fn light_mesh_stroke() -> (s: Stroke)
    ensures
        s == spec_light_mesh_stroke(),
        s.wf(),
{
    Stroke { width_millis: 1000, color: 0xd0d0_d0ff }
}

/// The heavier grey stroke of bold mesh lines and ticks.
pub open spec fn spec_bold_mesh_stroke() -> Stroke {
    Stroke { width_millis: 1000int as i64, color: 0x9090_90ffu32 }
}

/// The heavier grey stroke of bold mesh lines and ticks.
pub fn bold_mesh_stroke() -> (s: Stroke)
    ensures
        s == spec_bold_mesh_stroke(),
        s.wf(),
{
    Stroke { width_millis: 1000, color: 0x9090_90ff }
}

/// What the text engine lays a string out with: the line size in pixels.
/// Font selection belongs to the backend.
#[derive(Clone, Copy, Debug, PartialEq, Eq, Structural)]
pub struct TextStyle {
    pub size: i64,
}

impl TextStyle {
    pub open spec fn wf(self) -> bool {
        0 <= self.size <= MAX_PIXEL
    }

    pub fn new(size: i64) -> (s: TextStyle)
        requires
            0 <= size <= MAX_PIXEL,
        ensures
            s == (TextStyle { size }),
            s.wf(),
    {
        TextStyle { size }
    }
}

/// How a text operation's anchor point relates to the glyph box
/// horizontally.
#[derive(Clone, Copy, Debug, PartialEq, Eq, Structural)]
pub enum HAlign {
    Left,
    Center,
    Right,
}

/// How a text operation's anchor point relates to the glyph box vertically.
#[derive(Clone, Copy, Debug, PartialEq, Eq, Structural)]
pub enum VAlign {
    Top,
    Center,
    Bottom,
}

/// One primitive handed to the rendering backend, in absolute pixel
/// coordinates.
#[derive(Clone, Debug, PartialEq)]
pub enum DrawOp {
    /// A straight line from `(x0, y0)` to `(x1, y1)`.
    Line { x0: i64, y0: i64, x1: i64, y1: i64, stroke: Stroke },
    /// A string anchored at `(x, y)` with the given alignment.
    Text { text: String, size: i64, x: i64, y: i64, h_align: HAlign, v_align: VAlign },
    /// The outline of a rectangle.
    RectOutline { rect: Rect, stroke: Stroke },
}

/// `op` is the line from `(x0, y0)` to `(x1, y1)` in stroke `s`.
pub open spec fn is_line(op: DrawOp, x0: int, y0: int, x1: int, y1: int, s: Stroke) -> bool {
    op matches DrawOp::Line { x0: a, y0: b, x1: c, y1: d, stroke: st } && a == x0 && b == y0 && c
        == x1 && d == y1 && st == s
}

/// `op` draws exactly the characters `text` at size `size`, anchored at
/// `(x, y)` with the given alignment.
pub open spec fn is_text(
    op: DrawOp,
    text: Seq<char>,
    size: int,
    x: int,
    y: int,
    h: HAlign,
    v: VAlign,
) -> bool {
    op matches DrawOp::Text { text: t, size: sz, x: a, y: b, h_align: ha, v_align: va } && t@
        == text && sz == size && a == x && b == y && ha == h && va == v
}

/// `op` outlines `rect` in stroke `s`.
pub open spec fn is_rect_outline(op: DrawOp, rect: Rect, s: Stroke) -> bool {
    op matches DrawOp::RectOutline { rect: r, stroke: st } && r == rect && st == s
}

} // verus!
