//! The depth track's single-use style object: titles, an optional tick
//! label override, and the one `draw` that renders the track's head,
//! outlines and tick ladder.

use vstd::prelude::*;

use crate::draw_ops::outline_stroke;
use crate::draw_ops::spec_bold_mesh_stroke;
use crate::draw_ops::spec_light_mesh_stroke;
use crate::draw_ops::spec_outline_stroke;
use crate::draw_ops::bold_mesh_stroke;
use crate::draw_ops::light_mesh_stroke;
use crate::draw_ops::DrawOp;
use crate::format::format_value;
use crate::format::spec_format_millis;
use crate::log_plot_context::lemma_tick_op_count_monotonic;
use crate::log_plot_context::spec_tick_op_count;
use crate::log_plot_context::LogPlotContext;
use crate::ticks::spec_bold_count;
use crate::ticks::spec_bold_stride;
use crate::ticks::spec_tick_step;
use crate::ticks::spec_ticks;
use crate::ticks::spec_walk_count;
use crate::ticks::tick_counts;
use crate::PlotError;

verus! {

/// How far a tick reaches into the depth body, and how far its label sits
/// from the tick's inner end.
pub const DEPTH_TICK_SIZE: i64 = 8;

/// A single-use configuration object for drawing the depth track. It is
/// consumed by its first `draw`; a second `draw` is a reentrant
/// configuration error.
#[derive(Clone, Debug)]
pub struct LogPlotStyle {
    pub title: String,
    pub detail: String,
    pub label_override: Option<Vec<String>>,
    pub consumed: bool,
}

impl LogPlotStyle {
    /// The text of tick `i`'s label: the caller's override where one covers
    /// the keypoint, else the keypoint under the default formatter.
    pub open spec fn spec_label(self, keypoints: Seq<i64>, i: int) -> Seq<char> {
        if self.label_override is Some && i < self.label_override.unwrap()@.len() {
            self.label_override.unwrap()@[i]@
        } else {
            spec_format_millis(keypoints[i] as int)
        }
    }

    /// A fresh style with the default titles.
    pub fn new() -> (s: LogPlotStyle)
        ensures
            s.title@ == "DEPTH CHANNEL"@,
            s.detail@ == "DEPTH"@,
            s.label_override is None,
            !s.consumed,
    {
        LogPlotStyle {
            title: "DEPTH CHANNEL".to_owned(),
            detail: "DEPTH".to_owned(),
            label_override: None,
            consumed: false,
        }
    }

    /// Set the head's title and detail (unit) texts.
    pub fn title(self, title: String, detail: String) -> (s: LogPlotStyle)
        ensures
            s == (LogPlotStyle { title, detail, ..self }),
    {
        LogPlotStyle { title, detail, ..self }
    }

    /// Override the formatted tick labels: label `i` of the ladder is
    /// `labels[i]` wherever that index exists, in place of the default
    /// formatter's text.
    pub fn y_label_formatter(self, labels: Vec<String>) -> (s: LogPlotStyle)
        ensures
            s == (LogPlotStyle { label_override: Some(labels), ..self }),
    {
        LogPlotStyle { label_override: Some(labels), ..self }
    }

    /// Draw the depth track: its head (title and detail), the head and body
    /// outlines, and the tick ladder classified from `keypoints` — the
    /// external generator's output for the hints that the body's span
    /// yields. The style is consumed; drawing it again is a reentrant
    /// configuration error, and a degenerate body span is a layout error.
    pub fn draw(&mut self, ctx: &LogPlotContext, keypoints: &Vec<i64>) -> (res: Result<
        Vec<DrawOp>,
        PlotError,
    >)
        requires
            ctx.wf(),
            forall|i: int|
                0 <= i < keypoints.len() ==> ctx.depth_body.coord.lo <= #[trigger] keypoints[i]
                    <= ctx.depth_body.coord.hi,
        ensures
            old(self).consumed ==> (res matches Err(e) && e == PlotError::ReentrantConfiguration
                && *final(self) == *old(self)),
            !old(self).consumed ==> *final(self) == (LogPlotStyle { consumed: true, ..*old(self) }),
            !old(self).consumed ==> {
                let start = ctx.depth_body.rect.y0 as int;
                let end = ctx.depth_body.rect.y1 as int;
                let span_ok = end / 40 >= 1 && spec_tick_step(start, end) >= 1;
                &&& (res is Ok <==> span_ok)
                &&& (res matches Err(e) ==> e == PlotError::Layout)
            },
            res matches Ok(ops) ==> {
                let start = ctx.depth_body.rect.y0 as int;
                let end = ctx.depth_body.rect.y1 as int;
                let n = spec_walk_count(start, end, spec_tick_step(start, end));
                let k = spec_bold_stride(spec_bold_count(n), n - spec_bold_count(n));
                let ticks = spec_ticks(ctx.depth_body.coord, keypoints@, k);
                &&& ops.len() == 6 + spec_tick_op_count(ticks, ticks.len() as int)
                &&& ctx.spec_head_ops_at(old(self).title@, old(self).detail@, ops@, 0)
                &&& ctx.spec_area_rect_ops_at(spec_outline_stroke(), ops@, 4)
                &&& exists|labels: Seq<String>|
                    {
                        &&& labels.len() == keypoints.len()
                        &&& (forall|i: int|
                            0 <= i < labels.len() ==> (#[trigger] labels[i])@ == old(
                                self,
                            ).spec_label(keypoints@, i))
                        &&& (forall|i: int|
                            0 <= i < ticks.len() ==> #[trigger] ctx.spec_tick_ops_at(
                                ticks,
                                labels,
                                spec_light_mesh_stroke(),
                                spec_bold_mesh_stroke(),
                                ctx.config.detail_text_style.size as int,
                                DEPTH_TICK_SIZE as int,
                                ops@,
                                6,
                                i,
                            ))
                    }
            },
    {
        if self.consumed {
            return Err(PlotError::ReentrantConfiguration);
        }
        self.consumed = true;
        let counts = match tick_counts(ctx.depth_body.rect.y0, ctx.depth_body.rect.y1) {
            Ok(c) => c,
            Err(e) => {
                return Err(e);
            },
        };
        let (bold, light) = counts;
        let mut ops = ctx.draw_head(self.title.as_str(), self.detail.as_str());
        let mut rect_ops = ctx.draw_area_rect(&outline_stroke());
        let ghost head_view = ops@;
        let ghost rect_view = rect_ops@;
        ops.append(&mut rect_ops);
        let mut labels: Vec<String> = Vec::new();
        let mut i: usize = 0;
        while i < keypoints.len()
            invariant
                ctx.wf(),
                forall|j: int|
                    0 <= j < keypoints.len() ==> ctx.depth_body.coord.lo <= #[trigger] keypoints[j]
                        <= ctx.depth_body.coord.hi,
                i <= keypoints.len(),
                labels.len() == i,
                forall|j: int|
                    0 <= j < i ==> (#[trigger] labels[j])@ == self.spec_label(keypoints@, j),
                self.label_override == old(self).label_override,
            decreases keypoints.len() - i,
        {
            let label = match &self.label_override {
                Some(ov) => {
                    if i < ov.len() {
                        ov[i].clone()
                    } else {
                        format_value(keypoints[i])
                    }
                },
                None => { format_value(keypoints[i]) },
            };
            labels.push(label);
            i += 1;
        }
        let tick_ops = ctx.draw_depth_area_tick(
            bold,
            light,
            keypoints,
            &labels,
            &light_mesh_stroke(),
            &bold_mesh_stroke(),
            ctx.config.detail_text_style.size,
            DEPTH_TICK_SIZE,
        );
        let ghost tick_view = tick_ops@;
        let ghost ticks = spec_ticks(
            ctx.depth_body.coord,
            keypoints@,
            spec_bold_stride(bold as int, light as int),
        );
        let mut tick_ops = tick_ops;
        ops.append(&mut tick_ops);
        proof {
            assert(ops@ == head_view + rect_view + tick_view);
            assert(ctx.spec_head_ops_at(old(self).title@, old(self).detail@, ops@, 0)) by {
                assert(ops@[0] == head_view[0]);
                assert(ops@[1] == head_view[1]);
                assert(ops@[2] == head_view[2]);
                assert(ops@[3] == head_view[3]);
            }
            assert(ctx.spec_area_rect_ops_at(spec_outline_stroke(), ops@, 4)) by {
                assert(ops@[4] == rect_view[0]);
                assert(ops@[5] == rect_view[1]);
            }
            assert forall|t: int| 0 <= t < ticks.len() implies #[trigger] ctx.spec_tick_ops_at(
                ticks,
                labels@,
                spec_light_mesh_stroke(),
                spec_bold_mesh_stroke(),
                ctx.config.detail_text_style.size as int,
                DEPTH_TICK_SIZE as int,
                ops@,
                6,
                t,
            ) by {
                assert(ctx.spec_tick_ops_at(
                    ticks,
                    labels@,
                    spec_light_mesh_stroke(),
                    spec_bold_mesh_stroke(),
                    ctx.config.detail_text_style.size as int,
                    DEPTH_TICK_SIZE as int,
                    tick_view,
                    0,
                    t,
                ));
                let o = spec_tick_op_count(ticks, t);
                assert(0 <= o) by {
                    lemma_tick_op_count_monotonic(ticks, 0, t);
                }
                assert(spec_tick_op_count(ticks, t + 1) == o + if ticks[t].bold {
                    3int
                } else {
                    1int
                });
                assert(spec_tick_op_count(ticks, t + 1) <= tick_view.len() as int) by {
                    lemma_tick_op_count_monotonic(ticks, t + 1, ticks.len() as int);
                }
                if ticks[t].bold {
                    assert(ops@[6 + o] == tick_view[o]);
                    assert(ops@[6 + o + 1] == tick_view[o + 1]);
                    assert(ops@[6 + o + 2] == tick_view[o + 2]);
                } else {
                    assert(ops@[6 + o] == tick_view[o]);
                }
            }
        }
        Ok(ops)
    }
}

impl LogPlotContext {
    /// Initialize the single-use style object whose `draw` renders this
    /// depth track.
    pub fn configure_style(&self) -> (s: LogPlotStyle)
        ensures
            s.title@ == "DEPTH CHANNEL"@,
            s.detail@ == "DEPTH"@,
            s.label_override is None,
            !s.consumed,
    {
        LogPlotStyle::new()
    }
}

} // verus!
