//! A channel track: one fixed-width data column with its own head (title
//! and legend) and a plotting body bound to the shared depth domain.

use vstd::prelude::*;

use crate::area::spec_clamp;
use crate::area::split_vertically;
use crate::area::Rect;
use crate::builder::PlotConfig;
use crate::coord::rebind;
use crate::coord::Coord1d;
use crate::coord::ValueBoundArea;
use crate::coord::MAX_VALUE;
use crate::draw_ops::is_line;
use crate::draw_ops::is_rect_outline;
use crate::draw_ops::is_text;
use crate::draw_ops::outline_stroke;
use crate::draw_ops::spec_outline_stroke;
use crate::draw_ops::DrawOp;
use crate::draw_ops::HAlign;
use crate::draw_ops::Stroke;
use crate::draw_ops::TextStyle;
use crate::draw_ops::VAlign;
use crate::plot_legend::PlotCurve;
use crate::plot_legend::PlotLegend;
use crate::series::LogGraphSeries;
use crate::PlotError;
use crate::MAX_PIXEL;

verus! {

/// One data track: head and body rectangles, the annotations of the series
/// drawn so far, the legend laid out for its head, and the track's
/// configuration.
#[derive(Clone, Debug)]
pub struct ChannelContext {
    pub head: Rect,
    pub body: ValueBoundArea,
    pub series_anno: Vec<LogGraphSeries>,
    pub plot_legend: Option<PlotLegend>,
    pub config: PlotConfig,
}

impl ChannelContext {
    pub open spec fn wf(self) -> bool {
        &&& self.head.wf()
        &&& self.body.wf()
        &&& self.config.wf()
    }

    /// The head (title and legend) rectangle.
    pub fn head_area(&self) -> (r: &Rect)
        ensures
            r == self.head,
    {
        &self.head
    }

    /// The plotting body with its bound coordinate system.
    pub fn body_area(&self) -> (r: &ValueBoundArea)
        ensures
            r == self.body,
    {
        &self.body
    }

    /// The body's current coordinate specification.
    pub fn as_coord_spec(&self) -> (r: &Coord1d)
        ensures
            r == self.body.coord,
    {
        &self.body.coord
    }

    /// The title band of the channel's head.
    pub open spec fn spec_title_area(self) -> Rect {
        Rect {
            x0: self.head.x0,
            y0: self.head.y0,
            x1: self.head.x1,
            y1: (self.head.y0 + spec_clamp(
                self.config.title_height as int,
                self.head.spec_height(),
            )) as i64,
        }
    }

    /// The detail (legend) band of the channel's head.
    pub open spec fn spec_detail_area(self) -> Rect {
        Rect {
            x0: self.head.x0,
            y0: self.spec_title_area().y1,
            x1: self.head.x1,
            y1: self.head.y1,
        }
    }

    /// The legend job that `draw_head` lays out over the detail band: the
    /// numeric row's style is the detail style at four fifths of its size.
    pub open spec fn spec_head_legend(self, legends: Vec<PlotCurve>) -> PlotLegend {
        PlotLegend {
            x0: self.spec_detail_area().x0,
            y0: self.spec_detail_area().y0,
            x1: self.spec_detail_area().x1,
            y1: self.spec_detail_area().y1,
            legends,
            line_up: self.config.detail_text_style,
            line_down: TextStyle { size: (self.config.detail_text_style.size * 4 / 5) as i64 },
        }
    }

    /// Draw the channel's head: the centered title with its outline, then
    /// the legend block packed into the detail band, then the detail band's
    /// outline. A legend that does not fit is a legend-overflow error, the
    /// track is left as it was and nothing is emitted. On success the laid
    /// out legend is recorded on the track. `name_heights` holds each curve
    /// name's measured glyph height, from the external text engine.
    pub fn draw_head(
        &mut self,
        title: &str,
        legends: Vec<PlotCurve>,
        name_heights: &Vec<i64>,
    ) -> (res: Result<Vec<DrawOp>, PlotError>)
        requires
            old(self).wf(),
            name_heights.len() == legends.len(),
            forall|i: int| 0 <= i < name_heights.len() ==> 0 <= #[trigger] name_heights[i] <= MAX_PIXEL,
            forall|i: int| 0 <= i < legends.len() ==> (#[trigger] legends[i]).wf(),
        ensures
            ({
                let lg = old(self).spec_head_legend(legends);
                &&& (res is Ok <==> (legends.len() == 0 || lg.spec_fits()))
                &&& (res matches Err(e) ==> e == PlotError::LegendOverflow && *final(self) == *old(
                    self,
                ))
                &&& (res matches Ok(ops) ==> {
                    &&& *final(self) == (ChannelContext {
                        plot_legend: Some(lg),
                        ..*old(self)
                    })
                    &&& ops.len() == 3 + 5 * legends.len()
                    &&& is_text(
                        ops@[0],
                        title@,
                        old(self).config.head_text_style.size as int,
                        old(self).spec_title_area().spec_center_x(),
                        old(self).spec_title_area().spec_center_y(),
                        HAlign::Center,
                        VAlign::Center,
                    )
                    &&& is_rect_outline(ops@[1], old(self).spec_title_area(), spec_outline_stroke())
                    &&& forall|j: int|
                        0 <= j < legends.len() ==> #[trigger] lg.spec_curve_ops_ok(
                            name_heights@,
                            ops@.subrange(2, ops@.len() - 1),
                            j,
                        )
                    &&& is_rect_outline(
                        ops@[ops@.len() - 1],
                        old(self).spec_detail_area(),
                        spec_outline_stroke(),
                    )
                })
            }),
    {
        let (title_area, detail_area) = split_vertically(&self.head, self.config.title_height);
        let bottom_size = self.config.detail_text_style.size * 4 / 5;
        proof {
            assert(0 <= bottom_size <= MAX_PIXEL) by {
                vstd::arithmetic::div_mod::lemma_div_pos_is_pos(
                    self.config.detail_text_style.size * 4,
                    5,
                );
                vstd::arithmetic::div_mod::lemma_div_is_ordered(
                    self.config.detail_text_style.size * 4,
                    self.config.detail_text_style.size * 5,
                    5,
                );
                vstd::arithmetic::div_mod::lemma_div_by_multiple(
                    self.config.detail_text_style.size as int,
                    5,
                );
            }
        }
        let legend = PlotLegend::with_area(
            &detail_area,
            legends,
            self.config.detail_text_style,
            TextStyle { size: bottom_size },
        );
        let legend_ops = match legend.draw(name_heights) {
            Ok(o) => o,
            Err(e) => {
                return Err(e);
            },
        };
        let mut ops: Vec<DrawOp> = Vec::new();
        ops.push(
            DrawOp::Text {
                text: title.to_owned(),
                size: self.config.head_text_style.size,
                x: title_area.center_x(),
                y: title_area.center_y(),
                h_align: HAlign::Center,
                v_align: VAlign::Center,
            },
        );
        ops.push(DrawOp::RectOutline { rect: title_area, stroke: outline_stroke() });
        let ghost legend_ops_view = legend_ops@;
        let mut legend_ops = legend_ops;
        ops.append(&mut legend_ops);
        ops.push(DrawOp::RectOutline { rect: detail_area, stroke: outline_stroke() });
        proof {
            assert(ops@.subrange(2, ops@.len() - 1) =~= legend_ops_view);
        }
        self.plot_legend = Some(legend);
        Ok(ops)
    }

    /// Draw the channel body's gridlines: a horizontal line at each depth
    /// keypoint (mapped through the bound transform) when the depth mesh is
    /// on, then a vertical line at each value-mesh pixel position when the
    /// value mesh is on. The keypoints come from the external generator.
    pub fn draw_mesh_lines(
        &self,
        x_keypoints: &Vec<i64>,
        y_keypoints: &Vec<i64>,
        draw_x_mesh: bool,
        draw_y_mesh: bool,
        mesh_line_stroke: &Stroke,
    ) -> (ops: Vec<DrawOp>)
        requires
            self.wf(),
            forall|i: int|
                0 <= i < y_keypoints.len() ==> self.body.coord.lo <= #[trigger] y_keypoints[i]
                    <= self.body.coord.hi,
            forall|i: int|
                0 <= i < x_keypoints.len() ==> self.body.rect.x0 <= #[trigger] x_keypoints[i]
                    <= self.body.rect.x1,
        ensures
            ({
                let ny = if draw_y_mesh {
                    y_keypoints.len() as int
                } else {
                    0int
                };
                let nx = if draw_x_mesh {
                    x_keypoints.len() as int
                } else {
                    0int
                };
                &&& ops.len() == ny + nx
                &&& (draw_y_mesh ==> forall|i: int|
                    0 <= i < y_keypoints.len() ==> is_line(
                        ops@[i],
                        self.body.rect.x0 as int,
                        self.body.coord.spec_map(y_keypoints[i] as int),
                        self.body.rect.x1 as int,
                        self.body.coord.spec_map(y_keypoints[i] as int),
                        *mesh_line_stroke,
                    ))
                &&& (draw_x_mesh ==> forall|i: int|
                    0 <= i < x_keypoints.len() ==> is_line(
                        ops@[ny + i],
                        x_keypoints[i] as int,
                        self.body.rect.y0 as int,
                        x_keypoints[i] as int,
                        self.body.rect.y1 as int,
                        *mesh_line_stroke,
                    ))
            }),
    {
        let mut ops: Vec<DrawOp> = Vec::new();
        if draw_y_mesh {
            let mut i: usize = 0;
            while i < y_keypoints.len()
                invariant
                    self.wf(),
                    forall|j: int|
                        0 <= j < y_keypoints.len() ==> self.body.coord.lo
                            <= #[trigger] y_keypoints[j] <= self.body.coord.hi,
                    i <= y_keypoints.len(),
                    ops.len() == i,
                    forall|j: int|
                        0 <= j < i ==> is_line(
                            ops@[j],
                            self.body.rect.x0 as int,
                            self.body.coord.spec_map(y_keypoints[j] as int),
                            self.body.rect.x1 as int,
                            self.body.coord.spec_map(y_keypoints[j] as int),
                            *mesh_line_stroke,
                        ),
                decreases y_keypoints.len() - i,
            {
                let y = self.body.coord.map(y_keypoints[i]);
                ops.push(
                    DrawOp::Line {
                        x0: self.body.rect.x0,
                        y0: y,
                        x1: self.body.rect.x1,
                        y1: y,
                        stroke: *mesh_line_stroke,
                    },
                );
                i += 1;
            }
        }
        let ghost ny: int = if draw_y_mesh {
            y_keypoints.len() as int
        } else {
            0int
        };
        if draw_x_mesh {
            let mut i: usize = 0;
            while i < x_keypoints.len()
                invariant
                    self.wf(),
                    i <= x_keypoints.len(),
                    ny == if draw_y_mesh {
                        y_keypoints.len() as int
                    } else {
                        0int
                    },
                    ops.len() == ny + i,
                    draw_y_mesh ==> forall|j: int|
                        0 <= j < y_keypoints.len() ==> is_line(
                            ops@[j],
                            self.body.rect.x0 as int,
                            self.body.coord.spec_map(y_keypoints[j] as int),
                            self.body.rect.x1 as int,
                            self.body.coord.spec_map(y_keypoints[j] as int),
                            *mesh_line_stroke,
                        ),
                    forall|j: int|
                        0 <= j < i ==> is_line(
                            ops@[ny + j],
                            x_keypoints[j] as int,
                            self.body.rect.y0 as int,
                            x_keypoints[j] as int,
                            self.body.rect.y1 as int,
                            *mesh_line_stroke,
                        ),
                decreases x_keypoints.len() - i,
            {
                ops.push(
                    DrawOp::Line {
                        x0: x_keypoints[i],
                        y0: self.body.rect.y0,
                        x1: x_keypoints[i],
                        y1: self.body.rect.y1,
                        stroke: *mesh_line_stroke,
                    },
                );
                i += 1;
            }
        }
        ops
    }

    /// Draw a data series into the body under its *current* bound coordinate
    /// system: each point is a pixel X position and a logical Y value mapped
    /// through the bound transform, and consecutive points are joined by
    /// line segments. Returns the operations and the index of the series'
    /// new annotation record.
    pub fn draw_series(&mut self, points: &Vec<(i64, i64)>, stroke: &Stroke) -> (res: (
        Vec<DrawOp>,
        usize,
    ))
        requires
            old(self).wf(),
            forall|i: int|
                0 <= i < points.len() ==> old(self).body.rect.x0 <= (#[trigger] points[i]).0 <= old(
                    self,
                ).body.rect.x1 && old(self).body.coord.lo <= points[i].1 <= old(
                    self,
                ).body.coord.hi,
        ensures
            res.1 == old(self).series_anno.len(),
            final(self).series_anno.len() == old(self).series_anno.len() + 1,
            final(self).series_anno[res.1 as int].label is None,
            forall|i: int|
                0 <= i < old(self).series_anno.len() ==> final(self).series_anno[i] == old(
                    self,
                ).series_anno[i],
            final(self).head == old(self).head,
            final(self).body == old(self).body,
            final(self).plot_legend == old(self).plot_legend,
            final(self).config == old(self).config,
            res.0.len() == if points.len() >= 1 {
                points.len() - 1
            } else {
                0int
            },
            forall|i: int|
                0 <= i < points.len() - 1 ==> is_line(
                    res.0@[i],
                    points[i].0 as int,
                    old(self).body.coord.spec_map(points[i].1 as int),
                    (#[trigger] points[i + 1]).0 as int,
                    old(self).body.coord.spec_map(points[i + 1].1 as int),
                    *stroke,
                ),
    {
        let mut ops: Vec<DrawOp> = Vec::new();
        if points.len() >= 1 {
            let mut i: usize = 1;
            while i < points.len()
                invariant
                    self.wf(),
                    forall|j: int|
                        0 <= j < points.len() ==> self.body.rect.x0 <= (#[trigger] points[j]).0
                            <= self.body.rect.x1 && self.body.coord.lo <= points[j].1
                            <= self.body.coord.hi,
                    1 <= i <= points.len(),
                    ops.len() == i - 1,
                    forall|j: int|
                        0 <= j < i - 1 ==> is_line(
                            ops@[j],
                            points[j].0 as int,
                            self.body.coord.spec_map(points[j].1 as int),
                            (#[trigger] points[j + 1]).0 as int,
                            self.body.coord.spec_map(points[j + 1].1 as int),
                            *stroke,
                        ),
                decreases points.len() - i,
            {
                let (x0, v0) = points[i - 1];
                let (x1, v1) = points[i];
                let y0 = self.body.coord.map(v0);
                let y1 = self.body.coord.map(v1);
                ops.push(DrawOp::Line { x0, y0, x1, y1, stroke: *stroke });
                i += 1;
            }
        }
        let idx = self.series_anno.len();
        self.series_anno.push(LogGraphSeries::new());
        (ops, idx)
    }

    /// Draw a data series against its own value range: the body is
    /// transiently re-bound to a fresh two-dimensional coordinate system
    /// over the same pixel rectangle — `[x_lo, x_hi]` across the body's
    /// width for the curve's values, `[y_lo, y_hi]` down its height for
    /// depth — so curves with incompatible scales can share one track. An
    /// empty or descending domain on either axis is a domain error and
    /// changes nothing.
    pub fn draw_series_with_range(
        &mut self,
        x_lo: i64,
        x_hi: i64,
        y_lo: i64,
        y_hi: i64,
        points: &Vec<(i64, i64)>,
        stroke: &Stroke,
    ) -> (res: Result<(Vec<DrawOp>, usize), PlotError>)
        requires
            old(self).wf(),
            -MAX_VALUE <= x_lo <= MAX_VALUE,
            -MAX_VALUE <= x_hi <= MAX_VALUE,
            -MAX_VALUE <= y_lo <= MAX_VALUE,
            -MAX_VALUE <= y_hi <= MAX_VALUE,
            (x_lo < x_hi && y_lo < y_hi) ==> forall|i: int|
                0 <= i < points.len() ==> x_lo <= (#[trigger] points[i]).0 <= x_hi && y_lo
                    <= points[i].1 <= y_hi,
        ensures
            res is Ok <==> x_lo < x_hi && y_lo < y_hi,
            res matches Err(e) ==> e == PlotError::Domain && *final(self) == *old(self),
            res matches Ok(r) ==> {
                let cx = Coord1d {
                    lo: x_lo,
                    hi: x_hi,
                    p0: old(self).body.rect.x0,
                    p1: old(self).body.rect.x1,
                };
                let cy = Coord1d {
                    lo: y_lo,
                    hi: y_hi,
                    p0: old(self).body.rect.y0,
                    p1: old(self).body.rect.y1,
                };
                &&& r.1 == old(self).series_anno.len()
                &&& final(self).series_anno.len() == old(self).series_anno.len() + 1
                &&& final(self).series_anno[r.1 as int].label is None
                &&& forall|i: int|
                    0 <= i < old(self).series_anno.len() ==> final(self).series_anno[i] == old(
                        self,
                    ).series_anno[i]
                &&& final(self).head == old(self).head
                &&& final(self).body == old(self).body
                &&& final(self).plot_legend == old(self).plot_legend
                &&& final(self).config == old(self).config
                &&& r.0.len() == if points.len() >= 1 {
                    points.len() - 1
                } else {
                    0int
                }
                &&& forall|i: int|
                    0 <= i < points.len() - 1 ==> is_line(
                        r.0@[i],
                        cx.spec_map(points[i].0 as int),
                        cy.spec_map(points[i].1 as int),
                        cx.spec_map((#[trigger] points[i + 1]).0 as int),
                        cy.spec_map(points[i + 1].1 as int),
                        *stroke,
                    )
            },
    {
        if x_lo >= x_hi || y_lo >= y_hi {
            return Err(PlotError::Domain);
        }
        let cx = match Coord1d::new(x_lo, x_hi, self.body.rect.x0, self.body.rect.x1) {
            Ok(c) => c,
            Err(e) => {
                return Err(e);
            },
        };
        let cy = match rebind(&self.body, y_lo, y_hi) {
            Ok(a) => a.coord,
            Err(e) => {
                return Err(e);
            },
        };
        let mut ops: Vec<DrawOp> = Vec::new();
        if points.len() >= 1 {
            let mut i: usize = 1;
            while i < points.len()
                invariant
                    self.wf(),
                    cx.wf(),
                    cy.wf(),
                    forall|j: int|
                        0 <= j < points.len() ==> cx.lo <= (#[trigger] points[j]).0 <= cx.hi
                            && cy.lo <= points[j].1 <= cy.hi,
                    1 <= i <= points.len(),
                    ops.len() == i - 1,
                    forall|j: int|
                        0 <= j < i - 1 ==> is_line(
                            ops@[j],
                            cx.spec_map(points[j].0 as int),
                            cy.spec_map(points[j].1 as int),
                            cx.spec_map((#[trigger] points[j + 1]).0 as int),
                            cy.spec_map(points[j + 1].1 as int),
                            *stroke,
                        ),
                decreases points.len() - i,
            {
                let (v0x, v0y) = points[i - 1];
                let (v1x, v1y) = points[i];
                ops.push(
                    DrawOp::Line {
                        x0: cx.map(v0x),
                        y0: cy.map(v0y),
                        x1: cx.map(v1x),
                        y1: cy.map(v1y),
                        stroke: *stroke,
                    },
                );
                i += 1;
            }
        }
        let idx = self.series_anno.len();
        self.series_anno.push(LogGraphSeries::new());
        Ok((ops, idx))
    }

    /// Outline the channel's head and body rectangles.
    pub fn draw_area_rect(&self, axis_style: &Stroke) -> (ops: Vec<DrawOp>)
        requires
            self.wf(),
        ensures
            ops.len() == 2,
            is_rect_outline(ops@[0], self.head, *axis_style),
            is_rect_outline(ops@[1], self.body.rect, *axis_style),
    {
        let mut ops: Vec<DrawOp> = Vec::new();
        ops.push(DrawOp::RectOutline { rect: self.head, stroke: *axis_style });
        ops.push(DrawOp::RectOutline { rect: self.body.rect, stroke: *axis_style });
        ops
    }
}

} // verus!
