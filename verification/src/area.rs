//! Rectangle partitioning: margin application and horizontal/vertical splits.
//!
//! Every rectangle is a half-open pixel region `[x0, x1) x [y0, y1)` with
//! non-negative, bounded coordinates. Splits are pure: a parent rectangle is
//! carved into two non-overlapping children that cover it exactly.

use vstd::prelude::*;

use crate::MAX_PIXEL;
use crate::PlotError;

verus! {

/// A pixel rectangle, `x0 <= x1` and `y0 <= y1` when well formed.
#[derive(Clone, Copy, Debug, PartialEq, Eq, Structural)]
pub struct Rect {
    pub x0: i64,
    pub y0: i64,
    pub x1: i64,
    pub y1: i64,
}

/// Four non-negative pixel insets applied to a canvas before any splitting.
#[derive(Clone, Copy, Debug, PartialEq, Eq, Structural)]
pub struct PlotMargin {
    pub top: i64,
    pub bottom: i64,
    pub left: i64,
    pub right: i64,
}

impl Rect {
    /// Coordinates ordered, non-negative and within the pixel bound.
    pub open spec fn wf(self) -> bool {
        0 <= self.x0 <= self.x1 <= MAX_PIXEL && 0 <= self.y0 <= self.y1 <= MAX_PIXEL
    }

    pub open spec fn spec_width(self) -> int {
        self.x1 - self.x0
    }

    pub open spec fn spec_height(self) -> int {
        self.y1 - self.y0
    }

    /// Make a rectangle from its four corners.
    pub fn new(x0: i64, y0: i64, x1: i64, y1: i64) -> (r: Rect)
        requires
            0 <= x0 <= x1 <= MAX_PIXEL,
            0 <= y0 <= y1 <= MAX_PIXEL,
        ensures
            r == (Rect { x0, y0, x1, y1 }),
            r.wf(),
    {
        Rect { x0, y0, x1, y1 }
    }

    /// Where horizontally centered content anchors.
    pub open spec fn spec_center_x(self) -> int {
        self.x0 + (self.x1 - self.x0) / 2
    }

    /// Where vertically centered content anchors.
    pub open spec fn spec_center_y(self) -> int {
        self.y0 + (self.y1 - self.y0) / 2
    }

    pub fn center_x(&self) -> (c: i64)
        requires
            self.wf(),
        ensures
            c == self.spec_center_x(),
    {
        self.x0 + (self.x1 - self.x0) / 2
    }

    pub fn center_y(&self) -> (c: i64)
        requires
            self.wf(),
        ensures
            c == self.spec_center_y(),
    {
        self.y0 + (self.y1 - self.y0) / 2
    }

    pub fn width(&self) -> (w: i64)
        requires
            self.wf(),
        ensures
            w == self.spec_width(),
    {
        self.x1 - self.x0
    }

    pub fn height(&self) -> (h: i64)
        requires
            self.wf(),
        ensures
            h == self.spec_height(),
    {
        self.y1 - self.y0
    }
}

impl PlotMargin {
    pub open spec fn wf(self) -> bool {
        0 <= self.top <= MAX_PIXEL && 0 <= self.bottom <= MAX_PIXEL && 0 <= self.left
            <= MAX_PIXEL && 0 <= self.right <= MAX_PIXEL
    }

    /// The same inset on all four sides, clamped to the accepted range.
    pub fn uniform(size: i64) -> (m: PlotMargin)
        ensures
            m.wf(),
            0 <= size <= MAX_PIXEL ==> m == (PlotMargin {
                top: size,
                bottom: size,
                left: size,
                right: size,
            }),
    {
        let s = clamp_inset(size);
        PlotMargin { top: s, bottom: s, left: s, right: s }
    }
}

/// `v` clamped to `[0, hi]`.
pub open spec fn spec_clamp(v: int, hi: int) -> int {
    if v < 0 {
        0
    } else if v > hi {
        hi
    } else {
        v
    }
}

/// Clamp one inset to `[0, MAX_PIXEL]`, as a size given to the builder is.
pub fn clamp_inset(size: i64) -> (s: i64)
    ensures
        s == spec_clamp(size as int, MAX_PIXEL as int),
{
    if size < 0 {
        0
    } else if size > MAX_PIXEL {
        MAX_PIXEL
    } else {
        size
    }
}

/// Shrink `r` by the four insets of `m`. Fails with a layout error exactly
/// when a resulting dimension would be zero or negative.
pub fn apply_margin(r: &Rect, m: &PlotMargin) -> (res: Result<Rect, PlotError>)
    requires
        r.wf(),
        m.wf(),
    ensures
        res is Ok <==> m.left + m.right < r.spec_width() && m.top + m.bottom < r.spec_height(),
        res matches Ok(inner) ==> {
            &&& inner == (Rect {
                x0: (r.x0 + m.left) as i64,
                y0: (r.y0 + m.top) as i64,
                x1: (r.x1 - m.right) as i64,
                y1: (r.y1 - m.bottom) as i64,
            })
            &&& inner.wf()
            &&& inner.spec_width() == r.spec_width() - m.left - m.right
            &&& inner.spec_height() == r.spec_height() - m.top - m.bottom
        },
        res matches Err(e) ==> e == PlotError::Layout,
{
    if m.left + m.right < r.x1 - r.x0 && m.top + m.bottom < r.y1 - r.y0 {
        Ok(Rect { x0: r.x0 + m.left, y0: r.y0 + m.top, x1: r.x1 - m.right, y1: r.y1 - m.bottom })
    } else {
        Err(PlotError::Layout)
    }
}

/// Clamp a requested band size to what the parent has: `[0, limit]`.
pub fn clamp_to(size: i64, limit: i64) -> (s: i64)
    requires
        limit >= 0,
    ensures
        s == spec_clamp(size as int, limit as int),
        0 <= s <= limit,
{
    if size < 0 {
        0
    } else if size > limit {
        limit
    } else {
        size
    }
}

/// Split into a left band of width `left_width` (clamped to `[0, width]`)
/// and the remainder. The two parts tile `r`: their widths sum to its width
/// and both keep its height.
pub fn split_horizontally(r: &Rect, left_width: i64) -> (res: (Rect, Rect))
    requires
        r.wf(),
    ensures
        res.0.wf(),
        res.1.wf(),
        res.0.x0 == r.x0 && res.0.x1 == res.1.x0 && res.1.x1 == r.x1,
        res.0.y0 == r.y0 && res.0.y1 == r.y1,
        res.1.y0 == r.y0 && res.1.y1 == r.y1,
        res.0.spec_width() + res.1.spec_width() == r.spec_width(),
        res.0.spec_height() == r.spec_height() && res.1.spec_height() == r.spec_height(),
        res.0.spec_width() == spec_clamp(left_width as int, r.spec_width()),
{
    let w = clamp_to(left_width, r.x1 - r.x0);
    let mid = r.x0 + w;
    (Rect { x0: r.x0, y0: r.y0, x1: mid, y1: r.y1 }, Rect { x0: mid, y0: r.y0, x1: r.x1, y1: r.y1 })
}

/// Split into a top band of height `top_height` (clamped to `[0, height]`)
/// and the remainder; the vertical analogue of `split_horizontally`.
pub fn split_vertically(r: &Rect, top_height: i64) -> (res: (Rect, Rect))
    requires
        r.wf(),
    ensures
        res.0.wf(),
        res.1.wf(),
        res.0.y0 == r.y0 && res.0.y1 == res.1.y0 && res.1.y1 == r.y1,
        res.0.x0 == r.x0 && res.0.x1 == r.x1,
        res.1.x0 == r.x0 && res.1.x1 == r.x1,
        res.0.spec_height() + res.1.spec_height() == r.spec_height(),
        res.0.spec_width() == r.spec_width() && res.1.spec_width() == r.spec_width(),
        res.0.spec_height() == spec_clamp(top_height as int, r.spec_height()),
{
    let h = clamp_to(top_height, r.y1 - r.y0);
    let mid = r.y0 + h;
    (Rect { x0: r.x0, y0: r.y0, x1: r.x1, y1: mid }, Rect { x0: r.x0, y0: mid, x1: r.x1, y1: r.y1 })
}

} // verus!
