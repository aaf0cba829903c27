//! The depth track: the canvas-width-fixed left column that owns the shared
//! depth axis, plus the shrinking remainder that channels are carved from.

use vstd::prelude::*;


use crate::area::spec_clamp;
use crate::area::split_horizontally;
use crate::area::split_vertically;
use crate::area::Rect;
use crate::builder::PlotConfig;
use crate::channel_context::ChannelContext;
use crate::coord::bind_coordinate;
use crate::coord::Coord1d;
use crate::coord::ValueBoundArea;
use crate::coord::MAX_VALUE;
use crate::draw_ops::is_line;
use crate::draw_ops::is_rect_outline;
use crate::draw_ops::is_text;
use crate::draw_ops::outline_stroke;
use crate::draw_ops::spec_outline_stroke;
use crate::draw_ops::DrawOp;
use crate::draw_ops::HAlign;
use crate::draw_ops::Stroke;
use crate::draw_ops::VAlign;
use crate::ticks::bold_stride;
use crate::ticks::classify_ticks;
use crate::ticks::spec_bold_stride;
use crate::ticks::spec_ticks;
use crate::ticks::TickPoint;
use crate::PlotError;
use crate::MAX_PIXEL;

verus! {

/// Each channel track is carved this wide from the remaining drawing area,
/// clamped to what is left.
pub const CHANNEL_WIDTH: i64 = 200;

/// Extra length a bold tick gets over the configured tick size.
pub const BOLD_TICK_EXTRA: i64 = 5;

/// The depth track and the remaining drawing area to its right.
#[derive(Clone, Debug)]
pub struct LogPlotContext {
    pub depth_head: Rect,
    pub depth_body: ValueBoundArea,
    pub drawing_area: Rect,
    pub config: PlotConfig,
}

/// How many operations the first `i` classified ticks emit: a bold tick
/// takes two overlaid line segments and a label, a light tick one segment.
pub open spec fn spec_tick_op_count(ticks: Seq<TickPoint>, i: int) -> int
    decreases i,
{
    if i <= 0 {
        0
    } else {
        spec_tick_op_count(ticks, i - 1) + if ticks[i - 1].bold {
            3int
        } else {
            1int
        }
    }
}

impl LogPlotContext {
    pub open spec fn wf(self) -> bool {
        &&& self.depth_head.wf()
        &&& self.depth_body.wf()
        &&& self.drawing_area.wf()
        &&& self.config.wf()
    }

    /// The title band of the depth track's head.
    pub open spec fn spec_title_area(self) -> Rect {
        Rect {
            x0: self.depth_head.x0,
            y0: self.depth_head.y0,
            x1: self.depth_head.x1,
            y1: (self.depth_head.y0 + spec_clamp(
                self.config.title_height as int,
                self.depth_head.spec_height(),
            )) as i64,
        }
    }

    /// The detail (unit label) band of the depth track's head.
    pub open spec fn spec_detail_area(self) -> Rect {
        Rect {
            x0: self.depth_head.x0,
            y0: self.spec_title_area().y1,
            x1: self.depth_head.x1,
            y1: self.depth_head.y1,
        }
    }

    /// The four head operations stand at `ops[at..at+4]`: the centered
    /// title, the title band's outline, the centered detail text, and the
    /// detail band's outline.
    pub open spec fn spec_head_ops_at(
        self,
        title: Seq<char>,
        detail: Seq<char>,
        ops: Seq<DrawOp>,
        at: int,
    ) -> bool {
        &&& is_text(
            ops[at],
            title,
            self.config.head_text_style.size as int,
            self.spec_title_area().spec_center_x(),
            self.spec_title_area().spec_center_y(),
            HAlign::Center,
            VAlign::Center,
        )
        &&& is_rect_outline(ops[at + 1], self.spec_title_area(), spec_outline_stroke())
        &&& is_text(
            ops[at + 2],
            detail,
            self.config.detail_text_style.size as int,
            self.spec_detail_area().spec_center_x(),
            self.spec_detail_area().spec_center_y(),
            HAlign::Center,
            VAlign::Center,
        )
        &&& is_rect_outline(ops[at + 3], self.spec_detail_area(), spec_outline_stroke())
    }

    /// The two outline operations stand at `ops[at..at+2]`: the head's and
    /// the body's rectangle.
    pub open spec fn spec_area_rect_ops_at(self, s: Stroke, ops: Seq<DrawOp>, at: int) -> bool {
        &&& is_rect_outline(ops[at], self.depth_head, s)
        &&& is_rect_outline(ops[at + 1], self.depth_body.rect, s)
    }

    /// Tick `i`'s operations stand at `ops[at + spec_tick_op_count(.., i)]`:
    /// a bold tick gets a longer segment drawn in both strokes and a label
    /// to its left; a light tick one short segment along the body's right
    /// edge.
    pub open spec fn spec_tick_ops_at(
        self,
        ticks: Seq<TickPoint>,
        labels: Seq<String>,
        light: Stroke,
        dark: Stroke,
        label_size: int,
        tick_size: int,
        ops: Seq<DrawOp>,
        at: int,
        i: int,
    ) -> bool {
        let o = at + spec_tick_op_count(ticks, i);
        let y = ticks[i].pixel as int;
        let bx = self.depth_body.rect.x1 as int;
        if ticks[i].bold {
            &&& is_line(ops[o], bx - tick_size - BOLD_TICK_EXTRA, y, bx, y, light)
            &&& is_line(ops[o + 1], bx - tick_size - BOLD_TICK_EXTRA, y, bx, y, dark)
            &&& is_text(
                ops[o + 2],
                labels[i]@,
                label_size,
                bx - tick_size - BOLD_TICK_EXTRA - tick_size,
                y,
                HAlign::Right,
                VAlign::Center,
            )
        } else {
            is_line(ops[o], bx - tick_size, y, bx, y, light)
        }
    }

    /// Draw the depth track's head: its title and its detail (unit) label,
    /// each centered in its band and outlined.
    pub fn draw_head(&self, title: &str, detail: &str) -> (ops: Vec<DrawOp>)
        requires
            self.wf(),
        ensures
            ops.len() == 4,
            self.spec_head_ops_at(title@, detail@, ops@, 0),
    {
        let (title_area, detail_area) = split_vertically(&self.depth_head, self.config.title_height);
        let mut ops: Vec<DrawOp> = Vec::new();
        ops.push(
            DrawOp::Text {
                text: title.to_owned(),
                size: self.config.head_text_style.size,
                x: title_area.center_x(),
                y: title_area.center_y(),
                h_align: HAlign::Center,
                v_align: VAlign::Center,
            },
        );
        ops.push(DrawOp::RectOutline { rect: title_area, stroke: outline_stroke() });
        ops.push(
            DrawOp::Text {
                text: detail.to_owned(),
                size: self.config.detail_text_style.size,
                x: detail_area.center_x(),
                y: detail_area.center_y(),
                h_align: HAlign::Center,
                v_align: VAlign::Center,
            },
        );
        ops.push(DrawOp::RectOutline { rect: detail_area, stroke: outline_stroke() });
        proof {
            assert(title_area == self.spec_title_area());
            assert(detail_area == self.spec_detail_area());
        }
        ops
    }

    /// Outline the depth track's head and body rectangles.
    pub fn draw_area_rect(&self, axis_style: &Stroke) -> (ops: Vec<DrawOp>)
        requires
            self.wf(),
        ensures
            ops.len() == 2,
            self.spec_area_rect_ops_at(*axis_style, ops@, 0),
    {
        let mut ops: Vec<DrawOp> = Vec::new();
        ops.push(DrawOp::RectOutline { rect: self.depth_head, stroke: *axis_style });
        ops.push(DrawOp::RectOutline { rect: self.depth_body.rect, stroke: *axis_style });
        ops
    }

    /// Draw the tick ladder along the depth body's right edge. `keypoints`
    /// is the external key-point generator's output for the density hints
    /// `(bold_hint, light_hint)`; `labels` holds one formatted label per
    /// keypoint. Whatever counts were requested, the `i`-th returned tick is
    /// bold exactly when `i` is a multiple of the re-classification stride,
    /// and only bold ticks are labeled.
    pub fn draw_depth_area_tick(
        &self,
        bold_hint: usize,
        light_hint: usize,
        keypoints: &Vec<i64>,
        labels: &Vec<String>,
        light_axis_style: &Stroke,
        dark_axis_style: &Stroke,
        label_size: i64,
        tick_size: i64,
    ) -> (ops: Vec<DrawOp>)
        requires
            self.wf(),
            1 <= bold_hint <= MAX_PIXEL,
            light_hint <= MAX_PIXEL,
            labels.len() == keypoints.len(),
            0 <= label_size <= MAX_PIXEL,
            0 <= tick_size <= MAX_PIXEL,
            forall|i: int|
                0 <= i < keypoints.len() ==> self.depth_body.coord.lo <= #[trigger] keypoints[i]
                    <= self.depth_body.coord.hi,
        ensures
            ({
                let ticks = spec_ticks(
                    self.depth_body.coord,
                    keypoints@,
                    spec_bold_stride(bold_hint as int, light_hint as int),
                );
                &&& ops.len() == spec_tick_op_count(ticks, ticks.len() as int)
                &&& forall|i: int|
                    0 <= i < ticks.len() ==> self.spec_tick_ops_at(
                        ticks,
                        labels@,
                        *light_axis_style,
                        *dark_axis_style,
                        label_size as int,
                        tick_size as int,
                        ops@,
                        0,
                        i,
                    )
            }),
    {
        let k = bold_stride(bold_hint, light_hint);
        let tick_points = classify_ticks(&self.depth_body.coord, keypoints, k);
        let ghost ticks = spec_ticks(
            self.depth_body.coord,
            keypoints@,
            spec_bold_stride(bold_hint as int, light_hint as int),
        );
        let bx = self.depth_body.rect.x1;
        let mut ops: Vec<DrawOp> = Vec::new();
        let mut i: usize = 0;
        while i < tick_points.len()
            invariant
                self.wf(),
                tick_points@ == ticks,
                ticks.len() == keypoints.len() == labels.len(),
                bx == self.depth_body.rect.x1,
                0 <= tick_size <= MAX_PIXEL,
                i <= tick_points.len(),
                ops.len() == spec_tick_op_count(ticks, i as int),
                forall|j: int|
                    0 <= j < i ==> self.spec_tick_ops_at(
                        ticks,
                        labels@,
                        *light_axis_style,
                        *dark_axis_style,
                        label_size as int,
                        tick_size as int,
                        ops@,
                        0,
                        j,
                    ),
            decreases tick_points.len() - i,
        {
            let ghost ops_before = ops@;
            let t = tick_points[i];
            if t.bold {
                let len = tick_size + BOLD_TICK_EXTRA;
                ops.push(
                    DrawOp::Line {
                        x0: bx - len,
                        y0: t.pixel,
                        x1: bx,
                        y1: t.pixel,
                        stroke: *light_axis_style,
                    },
                );
                ops.push(
                    DrawOp::Line {
                        x0: bx - len,
                        y0: t.pixel,
                        x1: bx,
                        y1: t.pixel,
                        stroke: *dark_axis_style,
                    },
                );
                ops.push(
                    DrawOp::Text {
                        text: labels[i].clone(),
                        size: label_size,
                        x: bx - len - tick_size,
                        y: t.pixel,
                        h_align: HAlign::Right,
                        v_align: VAlign::Center,
                    },
                );
            } else {
                ops.push(
                    DrawOp::Line {
                        x0: bx - tick_size,
                        y0: t.pixel,
                        x1: bx,
                        y1: t.pixel,
                        stroke: *light_axis_style,
                    },
                );
            }
            proof {
                assert(self.spec_tick_ops_at(
                    ticks,
                    labels@,
                    *light_axis_style,
                    *dark_axis_style,
                    label_size as int,
                    tick_size as int,
                    ops@,
                    0,
                    i as int,
                ));
                assert forall|j: int| 0 <= j < i implies self.spec_tick_ops_at(
                    ticks,
                    labels@,
                    *light_axis_style,
                    *dark_axis_style,
                    label_size as int,
                    tick_size as int,
                    ops@,
                    0,
                    j,
                ) by {
                    assert(self.spec_tick_ops_at(
                        ticks,
                        labels@,
                        *light_axis_style,
                        *dark_axis_style,
                        label_size as int,
                        tick_size as int,
                        ops_before,
                        0,
                        j,
                    ));
                    assert(spec_tick_op_count(ticks, j + 1) <= spec_tick_op_count(
                        ticks,
                        i as int,
                    )) by {
                        lemma_tick_op_count_monotonic(ticks, j + 1, i as int);
                    }
                    let o = spec_tick_op_count(ticks, j);
                    assert(0 <= o) by {
                        lemma_tick_op_count_monotonic(ticks, 0, j);
                    }
                    assert(spec_tick_op_count(ticks, j + 1) == o + if ticks[j].bold {
                        3int
                    } else {
                        1int
                    });
                    assert(ops_before.len() == spec_tick_op_count(ticks, i as int));
                    if ticks[j].bold {
                        assert(ops@[o] == ops_before[o]);
                        assert(ops@[o + 1] == ops_before[o + 1]);
                        assert(ops@[o + 2] == ops_before[o + 2]);
                    } else {
                        assert(ops@[o] == ops_before[o]);
                    }
                }
            }
            i += 1;
        }
        ops
    }

    /// Carve the next channel track off the remaining drawing area's left
    /// edge, the channel width clamped to what is left, and bind the
    /// channel's body to its own domain `[lo, hi]` (milli-units). On a
    /// domain error nothing is consumed.
    pub fn add_channel(&mut self, lo: i64, hi: i64) -> (res: Result<ChannelContext, PlotError>)
        requires
            old(self).wf(),
            -MAX_VALUE <= lo <= MAX_VALUE,
            -MAX_VALUE <= hi <= MAX_VALUE,
        ensures
            res is Ok <==> lo < hi,
            res matches Err(e) ==> e == PlotError::Domain && *final(self) == *old(self),
            res matches Ok(ch) ==> {
                let da = old(self).drawing_area;
                let mid = da.x0 + spec_clamp(CHANNEL_WIDTH as int, da.spec_width());
                let head_y1 = da.y0 + spec_clamp(
                    old(self).config.head_height as int,
                    da.spec_height(),
                );
                &&& ch.head == (Rect { x0: da.x0, y0: da.y0, x1: mid as i64, y1: head_y1 as i64 })
                &&& ch.body.rect == (Rect {
                    x0: da.x0,
                    y0: head_y1 as i64,
                    x1: mid as i64,
                    y1: da.y1,
                })
                &&& ch.body.coord == (Coord1d { lo, hi, p0: head_y1 as i64, p1: da.y1 })
                &&& ch.series_anno.len() == 0
                &&& ch.plot_legend is None
                &&& ch.config == old(self).config
                &&& ch.wf()
                &&& *final(self) == (LogPlotContext {
                    drawing_area: Rect { x0: mid as i64, y0: da.y0, x1: da.x1, y1: da.y1 },
                    ..*old(self)
                })
                &&& final(self).wf()
            },
    {
        if lo >= hi {
            return Err(PlotError::Domain);
        }
        let (left, right) = split_horizontally(&self.drawing_area, CHANNEL_WIDTH);
        let (head, body_rect) = split_vertically(&left, self.config.head_height);
        let body = match bind_coordinate(&body_rect, lo, hi) {
            Ok(b) => b,
            Err(_) => {
                return Err(PlotError::Domain);
            },
        };
        self.drawing_area = right;
        Ok(
            ChannelContext {
                head,
                body,
                series_anno: Vec::new(),
                plot_legend: None,
                config: self.config,
            },
        )
    }
}

/// More ticks emit at least as many operations.
pub proof fn lemma_tick_op_count_monotonic(ticks: Seq<TickPoint>, i: int, j: int)
    requires
        i <= j,
    ensures
        spec_tick_op_count(ticks, i) <= spec_tick_op_count(ticks, j),
    decreases j - i,
{
    if i < j {
        lemma_tick_op_count_monotonic(ticks, i, j - 1);
    }
}

} // verus!
