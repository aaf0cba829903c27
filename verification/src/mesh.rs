//! The channel track's single-use style object: gridline strokes, mesh
//! toggles, title and legend curves, and the one `draw` that renders the
//! track's head, outlines and gridlines.

use vstd::prelude::*;

use crate::channel_context::ChannelContext;
use crate::draw_ops::bold_mesh_stroke;
use crate::draw_ops::is_line;
use crate::draw_ops::is_rect_outline;
use crate::draw_ops::is_text;
use crate::draw_ops::light_mesh_stroke;
use crate::draw_ops::outline_stroke;
use crate::draw_ops::spec_bold_mesh_stroke;
use crate::draw_ops::spec_light_mesh_stroke;
use crate::draw_ops::spec_outline_stroke;
use crate::draw_ops::DrawOp;
use crate::draw_ops::HAlign;
use crate::draw_ops::Stroke;
use crate::draw_ops::VAlign;
use crate::plot_legend::PlotCurve;
use crate::ticks::spec_tick_step;
use crate::ticks::tick_counts;
use crate::PlotError;
use crate::MAX_PIXEL;

verus! {

/// The key-point generator's output for the two mesh passes: the dense set
/// drawn in the light stroke and the sparse set drawn over it in the bold
/// stroke, each with its vertical (pixel X) and horizontal (depth value)
/// gridline positions.
#[derive(Clone, Debug)]
pub struct MeshKeyPoints {
    pub light_x: Vec<i64>,
    pub light_y: Vec<i64>,
    pub bold_x: Vec<i64>,
    pub bold_y: Vec<i64>,
}

/// An exact copy of one curve descriptor.
fn duplicate_curve(c: &PlotCurve) -> (r: PlotCurve)
    ensures
        r == *c,
{
    PlotCurve {
        name: c.name.clone(),
        min: c.min,
        max: c.max,
        unit: c.unit.clone(),
        stroke: c.stroke,
    }
}

/// An exact copy of a list of curve descriptors.
fn duplicate_curves(v: &Vec<PlotCurve>) -> (r: Vec<PlotCurve>)
    ensures
        r@ == v@,
{
    let mut out: Vec<PlotCurve> = Vec::new();
    let mut i: usize = 0;
    while i < v.len()
        invariant
            i <= v.len(),
            out@ =~= v@.take(i as int),
        decreases v.len() - i,
    {
        out.push(duplicate_curve(&v[i]));
        proof {
            assert(out@ =~= v@.take(i as int + 1));
        }
        i += 1;
    }
    proof {
        assert(out@ =~= v@);
    }
    out
}

/// A single-use configuration object for drawing one channel track. It is
/// consumed by its first `draw`; a second `draw` is a reentrant
/// configuration error.
#[derive(Clone, Debug)]
pub struct ChannelContextMeshStyle {
    pub dark_line_style: Option<Stroke>,
    pub light_line_style: Option<Stroke>,
    pub draw_x_mesh: bool,
    pub draw_y_mesh: bool,
    pub title: String,
    pub legends: Vec<PlotCurve>,
    pub consumed: bool,
}

impl ChannelContextMeshStyle {
    /// The stroke of the dense mesh pass: the caller's light style, or the
    /// default light mesh stroke.
    pub open spec fn spec_light_stroke(self) -> Stroke {
        if self.light_line_style is Some {
            self.light_line_style.unwrap()
        } else {
            spec_light_mesh_stroke()
        }
    }

    /// The stroke of the sparse mesh pass: the caller's dark style, or the
    /// default bold mesh stroke.
    pub open spec fn spec_dark_stroke(self) -> Stroke {
        if self.dark_line_style is Some {
            self.dark_line_style.unwrap()
        } else {
            spec_bold_mesh_stroke()
        }
    }

    /// A fresh style: both meshes on, default strokes, no title, no curves.
    pub fn new() -> (s: ChannelContextMeshStyle)
        ensures
            s.dark_line_style is None,
            s.light_line_style is None,
            s.draw_x_mesh,
            s.draw_y_mesh,
            s.title@ == Seq::<char>::empty(),
            s.legends.len() == 0,
            !s.consumed,
    {
        ChannelContextMeshStyle {
            dark_line_style: None,
            light_line_style: None,
            draw_x_mesh: true,
            draw_y_mesh: true,
            title: String::new(),
            legends: Vec::new(),
            consumed: false,
        }
    }

    /// Set the track's title.
    pub fn title(self, title: String) -> (s: ChannelContextMeshStyle)
        ensures
            s == (ChannelContextMeshStyle { title, ..self }),
    {
        ChannelContextMeshStyle { title, ..self }
    }

    /// Add one curve descriptor to the style's own legend list.
    pub fn add_curve(self, curve: PlotCurve) -> (s: ChannelContextMeshStyle)
        ensures
            s.legends@ == self.legends@.push(curve),
            s.dark_line_style == self.dark_line_style,
            s.light_line_style == self.light_line_style,
            s.draw_x_mesh == self.draw_x_mesh,
            s.draw_y_mesh == self.draw_y_mesh,
            s.title == self.title,
            s.consumed == self.consumed,
    {
        let mut legends = self.legends;
        legends.push(curve);
        ChannelContextMeshStyle { legends, ..self }
    }

    /// Draw the channel track: its head (title and the legend packed from
    /// `legends`), the head and body outlines, then two gridline passes over
    /// the external generator's output — the dense set in the light stroke,
    /// the sparse set over it in the dark stroke, filtered by the mesh
    /// toggles. The style is consumed; drawing it again is a reentrant
    /// configuration error. A degenerate body span is a layout error and a
    /// legend taller than the detail band a legend-overflow error; either
    /// way the track is left unchanged and nothing is emitted.
    pub fn draw(
        &mut self,
        ctx: &mut ChannelContext,
        legends: &Vec<PlotCurve>,
        name_heights: &Vec<i64>,
        keypoints: &MeshKeyPoints,
    ) -> (res: Result<Vec<DrawOp>, PlotError>)
        requires
            old(ctx).wf(),
            name_heights.len() == legends.len(),
            forall|i: int| 0 <= i < name_heights.len() ==> 0 <= #[trigger] name_heights[i] <= MAX_PIXEL,
            forall|i: int| 0 <= i < legends.len() ==> (#[trigger] legends[i]).wf(),
            forall|i: int|
                0 <= i < keypoints.light_y.len() ==> old(ctx).body.coord.lo
                    <= #[trigger] keypoints.light_y[i] <= old(ctx).body.coord.hi,
            forall|i: int|
                0 <= i < keypoints.bold_y.len() ==> old(ctx).body.coord.lo
                    <= #[trigger] keypoints.bold_y[i] <= old(ctx).body.coord.hi,
            forall|i: int|
                0 <= i < keypoints.light_x.len() ==> old(ctx).body.rect.x0
                    <= #[trigger] keypoints.light_x[i] <= old(ctx).body.rect.x1,
            forall|i: int|
                0 <= i < keypoints.bold_x.len() ==> old(ctx).body.rect.x0
                    <= #[trigger] keypoints.bold_x[i] <= old(ctx).body.rect.x1,
        ensures
            old(self).consumed ==> (res matches Err(e) && e == PlotError::ReentrantConfiguration
                && *final(self) == *old(self) && *final(ctx) == *old(ctx)),
            !old(self).consumed ==> *final(self) == (ChannelContextMeshStyle {
                consumed: true,
                ..*old(self)
            }),
            !old(self).consumed ==> {
                let start = old(ctx).body.rect.y0 as int;
                let end = old(ctx).body.rect.y1 as int;
                let span_ok = end / 40 >= 1 && spec_tick_step(start, end) >= 1;
                let lg = old(ctx).spec_head_legend(*legends);
                &&& (res is Ok <==> span_ok && (legends.len() == 0 || lg.spec_fits()))
                &&& (!span_ok ==> (res matches Err(e) && e == PlotError::Layout))
                &&& (span_ok && legends.len() >= 1 && !lg.spec_fits() ==> (res matches Err(e)
                    && e == PlotError::LegendOverflow))
                &&& (res is Err ==> *final(ctx) == *old(ctx))
            },
            res matches Ok(ops) ==> {
                let nh = 3 + 5 * legends.len() as int;
                let ny1: int = if old(self).draw_y_mesh {
                    keypoints.light_y.len() as int
                } else {
                    0
                };
                let nx1: int = if old(self).draw_x_mesh {
                    keypoints.light_x.len() as int
                } else {
                    0
                };
                let ny2: int = if old(self).draw_y_mesh {
                    keypoints.bold_y.len() as int
                } else {
                    0
                };
                let nx2: int = if old(self).draw_x_mesh {
                    keypoints.bold_x.len() as int
                } else {
                    0
                };
                &&& final(ctx).head == old(ctx).head
                &&& final(ctx).body == old(ctx).body
                &&& final(ctx).config == old(ctx).config
                &&& final(ctx).series_anno == old(ctx).series_anno
                &&& final(ctx).plot_legend matches Some(l) && l.legends@ == legends@ && l == old(
                    ctx,
                ).spec_head_legend(l.legends)
                &&& ops.len() == nh + 2 + ny1 + nx1 + ny2 + nx2
                &&& is_text(
                    ops@[0],
                    old(self).title@,
                    old(ctx).config.head_text_style.size as int,
                    old(ctx).spec_title_area().spec_center_x(),
                    old(ctx).spec_title_area().spec_center_y(),
                    HAlign::Center,
                    VAlign::Center,
                )
                &&& is_rect_outline(ops@[1], old(ctx).spec_title_area(), spec_outline_stroke())
                &&& (forall|j: int|
                    0 <= j < legends.len()
                        ==> #[trigger] final(ctx).plot_legend.unwrap().spec_curve_ops_ok(
                        name_heights@,
                        ops@.subrange(2, nh - 1),
                        j,
                    ))
                &&& is_rect_outline(ops@[nh - 1], old(ctx).spec_detail_area(), spec_outline_stroke())
                &&& is_rect_outline(ops@[nh], old(ctx).head, spec_outline_stroke())
                &&& is_rect_outline(ops@[nh + 1], old(ctx).body.rect, spec_outline_stroke())
                &&& (old(self).draw_y_mesh ==> forall|i: int|
                    0 <= i < keypoints.light_y.len() ==> is_line(
                        ops@[nh + 2 + i],
                        old(ctx).body.rect.x0 as int,
                        old(ctx).body.coord.spec_map(keypoints.light_y[i] as int),
                        old(ctx).body.rect.x1 as int,
                        old(ctx).body.coord.spec_map(keypoints.light_y[i] as int),
                        old(self).spec_light_stroke(),
                    ))
                &&& (old(self).draw_x_mesh ==> forall|i: int|
                    0 <= i < keypoints.light_x.len() ==> is_line(
                        ops@[nh + 2 + ny1 + i],
                        keypoints.light_x[i] as int,
                        old(ctx).body.rect.y0 as int,
                        keypoints.light_x[i] as int,
                        old(ctx).body.rect.y1 as int,
                        old(self).spec_light_stroke(),
                    ))
                &&& (old(self).draw_y_mesh ==> forall|i: int|
                    0 <= i < keypoints.bold_y.len() ==> is_line(
                        ops@[nh + 2 + ny1 + nx1 + i],
                        old(ctx).body.rect.x0 as int,
                        old(ctx).body.coord.spec_map(keypoints.bold_y[i] as int),
                        old(ctx).body.rect.x1 as int,
                        old(ctx).body.coord.spec_map(keypoints.bold_y[i] as int),
                        old(self).spec_dark_stroke(),
                    ))
                &&& (old(self).draw_x_mesh ==> forall|i: int|
                    0 <= i < keypoints.bold_x.len() ==> is_line(
                        ops@[nh + 2 + ny1 + nx1 + ny2 + i],
                        keypoints.bold_x[i] as int,
                        old(ctx).body.rect.y0 as int,
                        keypoints.bold_x[i] as int,
                        old(ctx).body.rect.y1 as int,
                        old(self).spec_dark_stroke(),
                    ))
            },
    {
        if self.consumed {
            return Err(PlotError::ReentrantConfiguration);
        }
        self.consumed = true;
        match tick_counts(ctx.body.rect.y0, ctx.body.rect.y1) {
            Ok(_) => {},
            Err(e) => {
                return Err(e);
            },
        }
        let curves = duplicate_curves(legends);
        proof {
            assert(forall|i: int| 0 <= i < curves.len() ==> (#[trigger] curves[i]).wf());
        }
        let mut ops = match ctx.draw_head(self.title.as_str(), curves, name_heights) {
            Ok(o) => o,
            Err(e) => {
                return Err(e);
            },
        };
        let ghost head_view = ops@;
        let mut rect_ops = ctx.draw_area_rect(&outline_stroke());
        let ghost rect_view = rect_ops@;
        ops.append(&mut rect_ops);
        let light_stroke = match self.light_line_style {
            Some(s) => s,
            None => light_mesh_stroke(),
        };
        let dark_stroke = match self.dark_line_style {
            Some(s) => s,
            None => bold_mesh_stroke(),
        };
        let mut light_ops = ctx.draw_mesh_lines(
            &keypoints.light_x,
            &keypoints.light_y,
            self.draw_x_mesh,
            self.draw_y_mesh,
            &light_stroke,
        );
        let ghost light_view = light_ops@;
        ops.append(&mut light_ops);
        let mut bold_ops = ctx.draw_mesh_lines(
            &keypoints.bold_x,
            &keypoints.bold_y,
            self.draw_x_mesh,
            self.draw_y_mesh,
            &dark_stroke,
        );
        let ghost bold_view = bold_ops@;
        ops.append(&mut bold_ops);
        proof {
            let nh = head_view.len() as int;
            assert(ops@ == head_view + rect_view + light_view + bold_view);
            assert(ops@[0] == head_view[0]);
            assert(ops@[1] == head_view[1]);
            assert(ops@[nh - 1] == head_view[nh - 1]);
            assert(ops@.subrange(2, nh - 1) =~= head_view.subrange(2, nh - 1));
            assert(ops@[nh] == rect_view[0]);
            assert(ops@[nh + 1] == rect_view[1]);
            assert forall|i: int| 0 <= i < light_view.len() implies ops@[nh + 2 + i]
                == light_view[i] by {}
            assert forall|i: int| 0 <= i < bold_view.len() implies ops@[nh + 2
                + light_view.len() + i] == bold_view[i] by {}
        }
        Ok(ops)
    }
}

impl ChannelContext {
    /// Initialize the single-use style object whose `draw` renders this
    /// channel track.
    pub fn configure_style(&self) -> (s: ChannelContextMeshStyle)
        ensures
            s.dark_line_style is None,
            s.light_line_style is None,
            s.draw_x_mesh,
            s.draw_y_mesh,
            s.title@ == Seq::<char>::empty(),
            s.legends.len() == 0,
            !s.consumed,
    {
        ChannelContextMeshStyle::new()
    }
}

} // verus!
