//! Top-level assembly: the fluent builder that carves a canvas into the
//! depth track and the remaining drawing area.

use vstd::prelude::*;

use crate::area::apply_margin;
use crate::area::spec_clamp;
use crate::area::split_horizontally;
use crate::area::split_vertically;
use crate::area::PlotMargin;
use crate::area::Rect;
use crate::area::clamp_inset;
use crate::coord::bind_coordinate;
use crate::coord::Coord1d;
use crate::coord::MAX_VALUE;
use crate::draw_ops::TextStyle;
use crate::log_plot_context::LogPlotContext;
use crate::PlotError;
use crate::MAX_PIXEL;

verus! {

/// The immutable configuration each track receives at construction time:
/// head and title band heights, and the two text styles.
#[derive(Clone, Copy, Debug, PartialEq, Eq, Structural)]
pub struct PlotConfig {
    pub head_height: i64,
    pub title_height: i64,
    pub head_text_style: TextStyle,
    pub detail_text_style: TextStyle,
}

impl PlotConfig {
    pub open spec fn wf(self) -> bool {
        &&& 0 <= self.head_height <= MAX_PIXEL
        &&& 0 <= self.title_height <= MAX_PIXEL
        &&& self.head_text_style.wf()
        &&& self.detail_text_style.wf()
    }
}

/// The fluent configuration surface of one chart build: margins, the depth
/// column's width, the head and title band heights, and the text styles.
#[derive(Clone, Copy, Debug, PartialEq, Eq, Structural)]
pub struct LogPlotBuilder {
    pub canvas: Rect,
    pub margin: PlotMargin,
    pub depth_area_width: i64,
    pub head_height: i64,
    pub title_height: i64,
    pub head_text_style: TextStyle,
    pub detail_text_style: TextStyle,
}

impl LogPlotBuilder {
    pub open spec fn wf(self) -> bool {
        &&& self.canvas.wf()
        &&& self.margin.wf()
        &&& 0 <= self.depth_area_width <= MAX_PIXEL
        &&& 0 <= self.head_height <= MAX_PIXEL
        &&& 0 <= self.title_height <= MAX_PIXEL
        &&& self.head_text_style.wf()
        &&& self.detail_text_style.wf()
    }

    /// The margins leave a non-degenerate drawing area.
    pub open spec fn spec_margin_ok(self) -> bool {
        self.margin.left + self.margin.right < self.canvas.spec_width() && self.margin.top
            + self.margin.bottom < self.canvas.spec_height()
    }

    /// The canvas after the margins.
    pub open spec fn spec_inner(self) -> Rect {
        Rect {
            x0: (self.canvas.x0 + self.margin.left) as i64,
            y0: (self.canvas.y0 + self.margin.top) as i64,
            x1: (self.canvas.x1 - self.margin.right) as i64,
            y1: (self.canvas.y1 - self.margin.bottom) as i64,
        }
    }

    /// Where the depth column ends and the drawing area begins.
    pub open spec fn spec_column_x1(self) -> int {
        self.spec_inner().x0 + spec_clamp(self.depth_area_width as int, self.spec_inner().spec_width())
    }

    /// Where the depth track's head ends and its body begins.
    pub open spec fn spec_head_y1(self) -> int {
        self.spec_inner().y0 + spec_clamp(self.head_height as int, self.spec_inner().spec_height())
    }

    /// Start a build over `canvas` with the default configuration: no
    /// margin, a 100px depth column, a 200px head with a 70px title band,
    /// 16px head text and 14px detail text.
    pub fn on(canvas: Rect) -> (b: LogPlotBuilder)
        requires
            canvas.wf(),
        ensures
            b == (LogPlotBuilder {
                canvas,
                margin: PlotMargin { top: 0int as i64, bottom: 0int as i64, left: 0int as i64, right: 0int as i64 },
                depth_area_width: 100int as i64,
                head_height: 200int as i64,
                title_height: 70int as i64,
                head_text_style: TextStyle { size: 16int as i64 },
                detail_text_style: TextStyle { size: 14int as i64 },
            }),
            b.wf(),
    {
        LogPlotBuilder {
            canvas,
            margin: PlotMargin { top: 0, bottom: 0, left: 0, right: 0 },
            depth_area_width: 100,
            head_height: 200,
            title_height: 70,
            head_text_style: TextStyle { size: 16 },
            detail_text_style: TextStyle { size: 14 },
        }
    }

    /// Set the style of head titles.
    pub fn head_text_style(self, head_text_style: TextStyle) -> (b: LogPlotBuilder)
        requires
            head_text_style.wf(),
        ensures
            b == (LogPlotBuilder { head_text_style, ..self }),
    {
        LogPlotBuilder { head_text_style, ..self }
    }

    /// Set the style of detail and legend text.
    pub fn detail_text_style(self, detail_text_style: TextStyle) -> (b: LogPlotBuilder)
        requires
            detail_text_style.wf(),
        ensures
            b == (LogPlotBuilder { detail_text_style, ..self }),
    {
        LogPlotBuilder { detail_text_style, ..self }
    }

    /// Set the same margin on all four sides, clamped to the accepted range.
    pub fn margin(self, size: i64) -> (b: LogPlotBuilder)
        ensures
            b == (LogPlotBuilder {
                margin: PlotMargin {
                    top: spec_clamp(size as int, MAX_PIXEL as int) as i64,
                    bottom: spec_clamp(size as int, MAX_PIXEL as int) as i64,
                    left: spec_clamp(size as int, MAX_PIXEL as int) as i64,
                    right: spec_clamp(size as int, MAX_PIXEL as int) as i64,
                },
                ..self
            }),
    {
        let s = clamp_inset(size);
        LogPlotBuilder { margin: PlotMargin { top: s, bottom: s, left: s, right: s }, ..self }
    }

    /// Set the top margin, clamped to the accepted range.
    pub fn margin_top(self, size: i64) -> (b: LogPlotBuilder)
        ensures
            b == (LogPlotBuilder {
                margin: PlotMargin {
                    top: spec_clamp(size as int, MAX_PIXEL as int) as i64,
                    ..self.margin
                },
                ..self
            }),
    {
        LogPlotBuilder { margin: PlotMargin { top: clamp_inset(size), ..self.margin }, ..self }
    }

    /// Set the bottom margin, clamped to the accepted range.
    pub fn margin_bottom(self, size: i64) -> (b: LogPlotBuilder)
        ensures
            b == (LogPlotBuilder {
                margin: PlotMargin {
                    bottom: spec_clamp(size as int, MAX_PIXEL as int) as i64,
                    ..self.margin
                },
                ..self
            }),
    {
        LogPlotBuilder { margin: PlotMargin { bottom: clamp_inset(size), ..self.margin }, ..self }
    }

    /// Set the left margin, clamped to the accepted range.
    pub fn margin_left(self, size: i64) -> (b: LogPlotBuilder)
        ensures
            b == (LogPlotBuilder {
                margin: PlotMargin {
                    left: spec_clamp(size as int, MAX_PIXEL as int) as i64,
                    ..self.margin
                },
                ..self
            }),
    {
        LogPlotBuilder { margin: PlotMargin { left: clamp_inset(size), ..self.margin }, ..self }
    }

    /// Set the right margin, clamped to the accepted range.
    pub fn margin_right(self, size: i64) -> (b: LogPlotBuilder)
        ensures
            b == (LogPlotBuilder {
                margin: PlotMargin {
                    right: spec_clamp(size as int, MAX_PIXEL as int) as i64,
                    ..self.margin
                },
                ..self
            }),
    {
        LogPlotBuilder { margin: PlotMargin { right: clamp_inset(size), ..self.margin }, ..self }
    }

    /// Apply the margins, carve the depth column off the left edge, split it
    /// into head and body, and bind the body to the depth domain
    /// `[lo, hi]` (milli-units). Over-large margins are a layout error; an
    /// empty or descending domain is a domain error.
    pub fn add_depth_area(&self, lo: i64, hi: i64) -> (res: Result<LogPlotContext, PlotError>)
        requires
            self.wf(),
            -MAX_VALUE <= lo <= MAX_VALUE,
            -MAX_VALUE <= hi <= MAX_VALUE,
        ensures
            res is Ok <==> self.spec_margin_ok() && lo < hi,
            !self.spec_margin_ok() ==> (res matches Err(e) && e == PlotError::Layout),
            self.spec_margin_ok() && lo >= hi ==> (res matches Err(e) && e == PlotError::Domain),
            res matches Ok(ctx) ==> {
                &&& ctx.depth_head == (Rect {
                    x0: self.spec_inner().x0,
                    y0: self.spec_inner().y0,
                    x1: self.spec_column_x1() as i64,
                    y1: self.spec_head_y1() as i64,
                })
                &&& ctx.depth_body.rect == (Rect {
                    x0: self.spec_inner().x0,
                    y0: self.spec_head_y1() as i64,
                    x1: self.spec_column_x1() as i64,
                    y1: self.spec_inner().y1,
                })
                &&& ctx.depth_body.coord == (Coord1d {
                    lo,
                    hi,
                    p0: self.spec_head_y1() as i64,
                    p1: self.spec_inner().y1,
                })
                &&& ctx.drawing_area == (Rect {
                    x0: self.spec_column_x1() as i64,
                    y0: self.spec_inner().y0,
                    x1: self.spec_inner().x1,
                    y1: self.spec_inner().y1,
                })
                &&& ctx.config == (PlotConfig {
                    head_height: self.head_height,
                    title_height: self.title_height,
                    head_text_style: self.head_text_style,
                    detail_text_style: self.detail_text_style,
                })
                &&& ctx.wf()
            },
    {
        let inner = match apply_margin(&self.canvas, &self.margin) {
            Ok(inner) => inner,
            Err(e) => {
                return Err(e);
            },
        };
        let (left, right) = split_horizontally(&inner, self.depth_area_width);
        let (left_head, left_body) = split_vertically(&left, self.head_height);
        let depth_body = match bind_coordinate(&left_body, lo, hi) {
            Ok(b) => b,
            Err(e) => {
                return Err(e);
            },
        };
        Ok(
            LogPlotContext {
                depth_head: left_head,
                depth_body,
                drawing_area: right,
                config: PlotConfig {
                    head_height: self.head_height,
                    title_height: self.title_height,
                    head_text_style: self.head_text_style,
                    detail_text_style: self.detail_text_style,
                },
            },
        )
    }
}

} // verus!
