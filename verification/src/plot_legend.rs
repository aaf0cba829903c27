//! Legend packing: vertical layout of curve descriptors inside a fixed area.
//!
//! Each curve takes a name row, a swatch line in the curve's stroke, and a
//! row with its minimum left-aligned, its unit centered and its maximum
//! right-aligned. The block's total height is the sum of the stroke widths
//! plus one line height per curve plus one line height of spacing between
//! curves; a block taller than the area is a legend-overflow error and
//! produces no output at all. A block that fits is vertically centered.

use vstd::prelude::*;

use vstd::arithmetic::div_mod::lemma_div_is_ordered;
use vstd::arithmetic::div_mod::lemma_div_multiples_vanish;
use vstd::arithmetic::div_mod::lemma_div_nonincreasing;
use vstd::arithmetic::div_mod::lemma_div_pos_is_pos;
use vstd::arithmetic::div_mod::lemma_hoist_over_denominator;
use vstd::arithmetic::mul::lemma_mul_inequality;
use vstd::arithmetic::mul::lemma_mul_is_distributive_add;
use vstd::arithmetic::mul::lemma_mul_is_distributive_add_other_way;
use vstd::arithmetic::mul::lemma_mul_nonnegative;

use crate::area::Rect;
use crate::draw_ops::is_line;
use crate::draw_ops::is_text;
use crate::draw_ops::DrawOp;
use crate::draw_ops::HAlign;
use crate::draw_ops::Stroke;
use crate::draw_ops::TextStyle;
use crate::draw_ops::VAlign;
use crate::format::format_value;
use crate::format::spec_format_millis;
use crate::coord::MAX_VALUE;
use crate::PlotError;
use crate::MAX_PIXEL;

verus! {

/// Gap between a curve's name row and its numeric row, beyond the glyphs.
pub const LEGEND_LINE_GAP: i64 = 7;

/// Vertical gap between a curve's name and its swatch line.
pub const NAME_GAP: i64 = 5;

/// Vertical gap between a curve's swatch line and its numeric row.
pub const SWATCH_GAP: i64 = 2;

/// Horizontal inset of the minimum and maximum values from the area's edges.
pub const VALUE_INSET: i64 = 5;

/// A data-free description of one curve's display metadata: what a legend
/// entry shows and what value range the curve is drawn against. The range
/// endpoints are fixed-point milli-units.
#[derive(Clone, Debug)]
pub struct PlotCurve {
    pub name: String,
    pub min: i64,
    pub max: i64,
    pub unit: String,
    pub stroke: Stroke,
}

impl PlotCurve {
    pub open spec fn wf(self) -> bool {
        &&& self.stroke.wf()
        &&& -MAX_VALUE <= self.min <= MAX_VALUE
        &&& -MAX_VALUE <= self.max <= MAX_VALUE
    }

    /// Set the curve's display name.
    pub fn name(self, name: String) -> (r: PlotCurve)
        ensures
            r == (PlotCurve { name, ..self }),
    {
        PlotCurve { name, ..self }
    }

    /// Set the curve's value range (milli-units) and its unit label.
    pub fn range(self, min: i64, max: i64, unit: String) -> (r: PlotCurve)
        requires
            -MAX_VALUE <= min <= MAX_VALUE,
            -MAX_VALUE <= max <= MAX_VALUE,
        ensures
            r == (PlotCurve { min, max, unit, ..self }),
    {
        PlotCurve { min, max, unit, ..self }
    }

    /// Set the stroke of the curve and of its legend swatch line.
    pub fn stroke(self, stroke: Stroke) -> (r: PlotCurve)
        requires
            stroke.wf(),
        ensures
            r == (PlotCurve { stroke, ..self }),
    {
        PlotCurve { stroke, ..self }
    }
}

impl Default for PlotCurve {
    /// An empty curve: no name or unit, a zero range, a hairline black stroke.
    fn default() -> (r: PlotCurve)
        ensures
            r.name@ == Seq::<char>::empty(),
            r.unit@ == Seq::<char>::empty(),
            r.min == 0 && r.max == 0,
            r.stroke == (Stroke { width_millis: 1000int as i64, color: 0x0000_00ffu32 }),
            r.wf(),
    {
        PlotCurve {
            name: String::new(),
            min: 0,
            max: 0,
            unit: String::new(),
            stroke: Stroke { width_millis: 1000, color: 0x0000_00ff },
        }
    }
}

/// The sum of the legend curves' stroke widths (milli-pixels): the vertical
/// room reserved for swatch lines.
pub open spec fn spec_stroke_sum(curves: Seq<PlotCurve>) -> int
    decreases curves.len(),
{
    if curves.len() == 0 {
        0
    } else {
        spec_stroke_sum(curves.drop_last()) + curves.last().stroke.width_millis
    }
}

/// The pixel room the first `i` legend entries consume beyond the block's
/// start: each entry advances by its name's glyph height, the two fixed
/// gaps, and the inter-curve spacing.
pub open spec fn spec_consumed(heights: Seq<i64>, spacing: int, i: int) -> int
    decreases i,
{
    if i <= 0 {
        0
    } else {
        spec_consumed(heights, spacing, i - 1) + heights[i - 1] + NAME_GAP + SWATCH_GAP + spacing
    }
}

proof fn lemma_stroke_sum_nonneg(curves: Seq<PlotCurve>)
    requires
        forall|i: int| 0 <= i < curves.len() ==> (#[trigger] curves[i]).wf(),
    ensures
        0 <= spec_stroke_sum(curves),
    decreases curves.len(),
{
    if curves.len() > 0 {
        lemma_stroke_sum_nonneg(curves.drop_last());
    }
}

proof fn lemma_consumed_le(heights: Seq<i64>, spacing: int, hmax: int, i: int)
    requires
        0 <= i <= heights.len(),
        0 <= spacing,
        0 <= hmax,
        forall|j: int| 0 <= j < heights.len() ==> 0 <= #[trigger] heights[j] <= hmax,
    ensures
        0 <= spec_consumed(heights, spacing, i) <= i * (hmax + NAME_GAP + SWATCH_GAP + spacing),
    decreases i,
{
    if i > 0 {
        lemma_consumed_le(heights, spacing, hmax, i - 1);
        assert((i - 1) * (hmax + NAME_GAP + SWATCH_GAP + spacing) + (hmax + NAME_GAP + SWATCH_GAP
            + spacing) == i * (hmax + NAME_GAP + SWATCH_GAP + spacing)) by (nonlinear_arith);
    }
}

/// The ephemeral layout job for one legend block: the target area's two
/// corners, the curves to pack, and the two text styles (name row and
/// numeric row).
#[derive(Clone, Debug)]
pub struct PlotLegend {
    pub x0: i64,
    pub y0: i64,
    pub x1: i64,
    pub y1: i64,
    pub legends: Vec<PlotCurve>,
    pub line_up: TextStyle,
    pub line_down: TextStyle,
}

impl PlotLegend {
    pub open spec fn wf(self) -> bool {
        &&& 0 <= self.x0 <= self.x1 <= MAX_PIXEL
        &&& 0 <= self.y0 <= self.y1 <= MAX_PIXEL
        &&& self.line_up.wf()
        &&& self.line_down.wf()
        &&& forall|i: int| 0 <= i < self.legends.len() ==> (#[trigger] self.legends[i]).wf()
    }

    pub open spec fn spec_height(self) -> int {
        self.y1 - self.y0
    }

    /// Where centered text anchors horizontally.
    pub open spec fn spec_center_x(self) -> int {
        self.x0 + (self.x1 - self.x0) / 2
    }

    /// One curve's line height: both text sizes plus the fixed gap.
    pub open spec fn spec_line_height(self) -> int {
        self.line_up.size + self.line_down.size + LEGEND_LINE_GAP
    }

    /// The packed block's total height in milli-pixels: the stroke widths,
    /// one line height per curve, and one line height of spacing between
    /// consecutive curves.
    pub open spec fn spec_total_millis(self) -> int {
        spec_stroke_sum(self.legends@) + 1000 * (self.spec_line_height() * self.legends@.len()
            + self.spec_line_height() * (self.legends@.len() - 1))
    }

    /// The block fits its area.
    pub open spec fn spec_fits(self) -> bool {
        self.spec_total_millis() <= self.spec_height() * 1000
    }

    /// The vertically centered block's first name row.
    pub open spec fn spec_start_y(self) -> int {
        self.y0 + (self.spec_height() - self.spec_total_millis() / 1000) / 2
    }

    /// Where curve `i`'s name row starts.
    pub open spec fn spec_name_y(self, heights: Seq<i64>, i: int) -> int {
        self.spec_start_y() + spec_consumed(heights, self.spec_line_height(), i)
    }

    /// Where curve `i`'s swatch line lies.
    pub open spec fn spec_swatch_y(self, heights: Seq<i64>, i: int) -> int {
        self.spec_name_y(heights, i) + heights[i] + NAME_GAP
    }

    /// Where curve `i`'s numeric row starts.
    pub open spec fn spec_row_y(self, heights: Seq<i64>, i: int) -> int {
        self.spec_swatch_y(heights, i) + SWATCH_GAP
    }

    /// The five operations of curve `i` stand at `ops[5i..5i+5]`: its name
    /// centered, its swatch line, and its minimum, unit and maximum on one
    /// row.
    pub open spec fn spec_curve_ops_ok(self, heights: Seq<i64>, ops: Seq<DrawOp>, i: int) -> bool {
        &&& is_text(
            ops[5 * i],
            self.legends@[i].name@,
            self.line_up.size as int,
            self.spec_center_x(),
            self.spec_name_y(heights, i),
            HAlign::Center,
            VAlign::Top,
        )
        &&& is_line(
            ops[5 * i + 1],
            self.x0 as int,
            self.spec_swatch_y(heights, i),
            self.x1 as int,
            self.spec_swatch_y(heights, i),
            self.legends@[i].stroke,
        )
        &&& is_text(
            ops[5 * i + 2],
            spec_format_millis(self.legends@[i].min as int),
            self.line_down.size as int,
            self.x0 + VALUE_INSET,
            self.spec_row_y(heights, i),
            HAlign::Left,
            VAlign::Top,
        )
        &&& is_text(
            ops[5 * i + 3],
            self.legends@[i].unit@,
            self.line_down.size as int,
            self.spec_center_x(),
            self.spec_row_y(heights, i),
            HAlign::Center,
            VAlign::Top,
        )
        &&& is_text(
            ops[5 * i + 4],
            spec_format_millis(self.legends@[i].max as int),
            self.line_down.size as int,
            self.x1 - VALUE_INSET,
            self.spec_row_y(heights, i),
            HAlign::Right,
            VAlign::Top,
        )
    }

    /// A legend job over the pixel rectangle of `area`.
    pub fn with_area(
        area: &Rect,
        legends: Vec<PlotCurve>,
        detail_top_style: TextStyle,
        detail_bottom_style: TextStyle,
    ) -> (r: PlotLegend)
        requires
            area.wf(),
        ensures
            r == (PlotLegend {
                x0: area.x0,
                y0: area.y0,
                x1: area.x1,
                y1: area.y1,
                legends,
                line_up: detail_top_style,
                line_down: detail_bottom_style,
            }),
    {
        PlotLegend {
            x0: area.x0,
            y0: area.y0,
            x1: area.x1,
            y1: area.y1,
            legends,
            line_up: detail_top_style,
            line_down: detail_bottom_style,
        }
    }

    /// A legend job over the rectangle between two corners.
    pub fn new(
        x0: i64,
        y0: i64,
        x1: i64,
        y1: i64,
        legends: Vec<PlotCurve>,
        detail_top_style: TextStyle,
        detail_bottom_style: TextStyle,
    ) -> (r: PlotLegend)
        ensures
            r == (PlotLegend {
                x0,
                y0,
                x1,
                y1,
                legends,
                line_up: detail_top_style,
                line_down: detail_bottom_style,
            }),
    {
        PlotLegend { x0, y0, x1, y1, legends, line_up: detail_top_style, line_down: detail_bottom_style }
    }

    /// The packed block's total height in milli-pixels.
    pub fn total_height_millis(&self) -> (t: i128)
        requires
            self.wf(),
        ensures
            t == self.spec_total_millis(),
    {
        let count = self.legends.len();
        let mut sum: i128 = 0;
        let mut i: usize = 0;
        while i < count
            invariant
                self.wf(),
                count == self.legends.len(),
                i <= count,
                sum == spec_stroke_sum(self.legends@.take(i as int)),
                0 <= sum <= i * (MAX_PIXEL as int),
            decreases count - i,
        {
            let w = self.legends[i].stroke.width_millis;
            proof {
                assert(self.legends@.take(i as int + 1).drop_last() =~= self.legends@.take(
                    i as int,
                ));
                assert(self.legends@.take(i as int + 1).last() == self.legends@[i as int]);
                assert(sum + w <= (i + 1) * (MAX_PIXEL as int)) by (nonlinear_arith)
                    requires
                        sum <= i * (MAX_PIXEL as int),
                        w <= MAX_PIXEL,
                        i >= 0,
                ;
            }
            sum = sum + w as i128;
            i += 1;
        }
        proof {
            assert(self.legends@.take(count as int) =~= self.legends@);
            assert(count * (MAX_PIXEL as int) <= 0x1_0000_0000_0000_0000 * (MAX_PIXEL as int))
                by (nonlinear_arith)
                requires
                    0 <= count <= 0x1_0000_0000_0000_0000,
            ;
        }
        let lh = self.line_up.size + self.line_down.size + LEGEND_LINE_GAP;
        let c = count as i128;
        proof {
            assert((lh as int) * (c as int) <= 0x2_0000_0000 * 0x1_0000_0000_0000_0000)
                by (nonlinear_arith)
                requires
                    0 <= lh <= 0x2_0000_0000,
                    0 <= c <= 0x1_0000_0000_0000_0000,
            ;
            assert((lh as int) * (c as int - 1) <= 0x2_0000_0000 * 0x1_0000_0000_0000_0000
                && (lh as int) * (c as int - 1) >= -0x2_0000_0000) by (nonlinear_arith)
                requires
                    0 <= lh <= 0x2_0000_0000,
                    0 <= c <= 0x1_0000_0000_0000_0000,
            ;
        }
        let t1 = (lh as i128) * c;
        let t2 = (lh as i128) * (c - 1);
        sum + 1000 * (t1 + t2)
    }

    /// Pack the legend. Whenever there is at least one curve and the block's
    /// total height exceeds the area's, the result is a legend-overflow
    /// error and nothing is emitted; otherwise the centered block's
    /// operations come back in drawing order, five per curve. `name_heights`
    /// holds each curve name's measured glyph height, from the external text
    /// engine.
    pub fn draw(&self, name_heights: &Vec<i64>) -> (res: Result<Vec<DrawOp>, PlotError>)
        requires
            self.wf(),
            name_heights.len() == self.legends.len(),
            forall|i: int| 0 <= i < name_heights.len() ==> 0 <= #[trigger] name_heights[i] <= MAX_PIXEL,
        ensures
            self.legends.len() == 0 ==> (res matches Ok(ops) && ops.len() == 0),
            self.legends.len() >= 1 ==> (res is Ok <==> self.spec_fits()),
            res matches Err(e) ==> e == PlotError::LegendOverflow,
            res matches Ok(ops) ==> {
                &&& ops.len() == 5 * self.legends.len()
                &&& forall|i: int|
                    0 <= i < self.legends.len() ==> self.spec_curve_ops_ok(name_heights@, ops@, i)
            },
    {
        let count = self.legends.len();
        if count == 0 {
            return Ok(Vec::new());
        }
        let total = self.total_height_millis();
        let height = self.y1 - self.y0;
        proof {
            lemma_stroke_sum_nonneg(self.legends@);
            lemma_mul_nonnegative(self.spec_line_height(), count as int);
            lemma_mul_nonnegative(self.spec_line_height(), count as int - 1);
        }
        if total > (height as i128) * 1000 {
            return Err(PlotError::LegendOverflow);
        }
        let ghost lh_g = self.spec_line_height();
        let ghost cnt = count as int;
        proof {
            // The block fits, so the curve count is bounded by the height.
            assert(lh_g * cnt + lh_g * (cnt - 1) >= lh_g * cnt);
            assert(1000 * (lh_g * cnt + lh_g * (cnt - 1)) >= 1000 * (lh_g * cnt));
            assert(lh_g * cnt <= height);
            assert(LEGEND_LINE_GAP * cnt <= lh_g * cnt) by {
                lemma_mul_inequality(LEGEND_LINE_GAP as int, lh_g, cnt);
            }
            assert(cnt <= height);
        }
        let total_i64 = total as i64;
        let total_px = total_i64 / 1000;
        proof {
            assert(total_px <= height) by {
                lemma_div_is_ordered(total_i64 as int, height * 1000, 1000);
                lemma_div_multiples_vanish(height as int, 1000);
            }
            assert(total_px >= 0) by {
                lemma_div_pos_is_pos(total_i64 as int, 1000);
            }
            assert((height - total_px) / 2 >= 0) by {
                lemma_div_pos_is_pos(height - total_px, 2);
            }
            assert((height - total_px) / 2 <= height) by {
                lemma_div_nonincreasing(height - total_px, 2);
            }
        }
        let start_y = self.y0 + (height - total_px) / 2;
        let cx = self.x0 + (self.x1 - self.x0) / 2;
        proof {
            assert(0 <= (self.x1 - self.x0) / 2 <= MAX_PIXEL) by {
                lemma_div_pos_is_pos(self.x1 - self.x0, 2);
                lemma_div_nonincreasing(self.x1 - self.x0, 2);
            }
        }
        let mut ops: Vec<DrawOp> = Vec::new();
        let mut y: i64 = start_y;
        let mut i: usize = 0;
        while i < count
            invariant
                self.wf(),
                name_heights.len() == count == self.legends.len(),
                forall|j: int|
                    0 <= j < name_heights.len() ==> 0 <= #[trigger] name_heights[j] <= MAX_PIXEL,
                cnt == count as int,
                lh_g == self.spec_line_height(),
                lh_g * cnt <= height,
                height == self.spec_height(),
                0 <= height <= MAX_PIXEL,
                1 <= cnt <= height,
                start_y == self.spec_start_y(),
                self.y0 <= start_y <= self.y0 + height,
                cx == self.spec_center_x(),
                i <= count,
                y == start_y + spec_consumed(name_heights@, lh_g, i as int),
                ops.len() == 5 * i,
                forall|j: int| 0 <= j < i ==> self.spec_curve_ops_ok(name_heights@, ops@, j),
            decreases count - i,
        {
            proof {
                lemma_consumed_le(name_heights@, lh_g, MAX_PIXEL as int, i as int + 1);
                assert((i as int + 1) * (MAX_PIXEL + NAME_GAP + SWATCH_GAP + lh_g) <= cnt
                    * (MAX_PIXEL + NAME_GAP + SWATCH_GAP + lh_g)) by {
                    lemma_mul_inequality(
                        i as int + 1,
                        cnt,
                        MAX_PIXEL + NAME_GAP + SWATCH_GAP + lh_g,
                    );
                }
                assert(cnt * (MAX_PIXEL + NAME_GAP + SWATCH_GAP + lh_g) == cnt * (MAX_PIXEL
                    + NAME_GAP + SWATCH_GAP) + cnt * lh_g) by {
                    lemma_mul_is_distributive_add(
                        cnt,
                        MAX_PIXEL + NAME_GAP + SWATCH_GAP,
                        lh_g,
                    );
                }
                assert(cnt * (MAX_PIXEL + NAME_GAP + SWATCH_GAP) <= MAX_PIXEL as int * (MAX_PIXEL
                    + NAME_GAP + SWATCH_GAP)) by {
                    lemma_mul_inequality(cnt, MAX_PIXEL as int, MAX_PIXEL + NAME_GAP + SWATCH_GAP);
                }
                lemma_consumed_le(name_heights@, lh_g, MAX_PIXEL as int, i as int);
            }
            let ghost ops_before = ops@;
            let h = name_heights[i];
            let curve_name = self.legends[i].name.clone();
            ops.push(
                DrawOp::Text {
                    text: curve_name,
                    size: self.line_up.size,
                    x: cx,
                    y,
                    h_align: HAlign::Center,
                    v_align: VAlign::Top,
                },
            );
            let sw_y = y + h + NAME_GAP;
            ops.push(
                DrawOp::Line {
                    x0: self.x0,
                    y0: sw_y,
                    x1: self.x1,
                    y1: sw_y,
                    stroke: self.legends[i].stroke,
                },
            );
            let row_y = sw_y + SWATCH_GAP;
            let min_text = format_value(self.legends[i].min);
            ops.push(
                DrawOp::Text {
                    text: min_text,
                    size: self.line_down.size,
                    x: self.x0 + VALUE_INSET,
                    y: row_y,
                    h_align: HAlign::Left,
                    v_align: VAlign::Top,
                },
            );
            let unit_text = self.legends[i].unit.clone();
            ops.push(
                DrawOp::Text {
                    text: unit_text,
                    size: self.line_down.size,
                    x: cx,
                    y: row_y,
                    h_align: HAlign::Center,
                    v_align: VAlign::Top,
                },
            );
            let max_text = format_value(self.legends[i].max);
            ops.push(
                DrawOp::Text {
                    text: max_text,
                    size: self.line_down.size,
                    x: self.x1 - VALUE_INSET,
                    y: row_y,
                    h_align: HAlign::Right,
                    v_align: VAlign::Top,
                },
            );
            proof {
                assert(self.spec_curve_ops_ok(name_heights@, ops@, i as int));
                assert forall|j: int| 0 <= j < i implies self.spec_curve_ops_ok(
                    name_heights@,
                    ops@,
                    j,
                ) by {
                    assert(self.spec_curve_ops_ok(name_heights@, ops_before, j));
                    assert(ops@[5 * j] == ops_before[5 * j]);
                    assert(ops@[5 * j + 1] == ops_before[5 * j + 1]);
                    assert(ops@[5 * j + 2] == ops_before[5 * j + 2]);
                    assert(ops@[5 * j + 3] == ops_before[5 * j + 3]);
                    assert(ops@[5 * j + 4] == ops_before[5 * j + 4]);
                }
            }
            y = row_y + (self.line_up.size + self.line_down.size + LEGEND_LINE_GAP);
            i += 1;
        }
        Ok(ops)
    }

    /// A legend block that fits lies within its area: the first name row
    /// starts no higher than the area's top, and the last numeric row's
    /// glyphs end no lower than the area's bottom, provided each name's
    /// glyph height stays within the name row's text size.
    pub proof fn lemma_legend_block_within(self, heights: Seq<i64>)
        requires
            self.wf(),
            heights.len() == self.legends.len(),
            self.legends.len() >= 1,
            forall|i: int| 0 <= i < heights.len() ==> 0 <= #[trigger] heights[i] <= self.line_up.size,
            self.spec_fits(),
        ensures
            self.spec_start_y() >= self.y0,
            self.spec_row_y(heights, self.legends.len() - 1) + self.line_down.size
                <= self.y1,
    {
        let cnt = self.legends.len() as int;
        let lh = self.spec_line_height();
        let up = self.line_up.size as int;
        let down = self.line_down.size as int;
        let height = self.spec_height();
        let ss = spec_stroke_sum(self.legends@);
        let block = lh * cnt + lh * (cnt - 1);
        let total = self.spec_total_millis();
        lemma_stroke_sum_nonneg(self.legends@);
        lemma_mul_nonnegative(lh, cnt);
        lemma_mul_nonnegative(lh, cnt - 1);
        // The whole-pixel total is at least the text block and at most the height.
        let total_px = total / 1000;
        assert(total_px >= block) by {
            lemma_hoist_over_denominator(ss, block, 1000nat);
            lemma_div_pos_is_pos(ss, 1000);
        }
        assert(total_px <= height) by {
            lemma_div_is_ordered(total, height * 1000, 1000);
            lemma_div_multiples_vanish(height, 1000);
        }
        assert(self.spec_start_y() >= self.y0) by {
            lemma_div_pos_is_pos(height - total_px, 2);
        }
        // The consumed room of the last entry stays within the text block.
        lemma_consumed_le(heights, lh, up, cnt - 1);
        let last_end = spec_consumed(heights, lh, cnt - 1) + heights[cnt - 1] + NAME_GAP
            + SWATCH_GAP + down;
        assert((cnt - 1) * (up + NAME_GAP + SWATCH_GAP + lh) == (cnt - 1) * (up + NAME_GAP
            + SWATCH_GAP) + (cnt - 1) * lh) by {
            lemma_mul_is_distributive_add(cnt - 1, up + NAME_GAP + SWATCH_GAP, lh);
        }
        assert((cnt - 1) * (up + NAME_GAP + SWATCH_GAP) + (up + NAME_GAP + SWATCH_GAP) == cnt * (
        up + NAME_GAP + SWATCH_GAP)) by (nonlinear_arith);
        assert(last_end <= cnt * (up + NAME_GAP + SWATCH_GAP) + (cnt - 1) * lh + down);
        assert(cnt * (up + NAME_GAP + SWATCH_GAP) + down <= cnt * (up + NAME_GAP + SWATCH_GAP)
            + cnt * down) by {
            lemma_mul_inequality(1, cnt, down);
        }
        assert(cnt * (up + NAME_GAP + SWATCH_GAP) + cnt * down == cnt * lh) by {
            lemma_mul_is_distributive_add(cnt, up + NAME_GAP + SWATCH_GAP, down);
        }
        assert(last_end <= block);
        // Centering keeps the block's end above the area's bottom.
        assert((height - total_px) / 2 <= height - total_px) by {
            lemma_div_nonincreasing(height - total_px, 2);
            lemma_div_pos_is_pos(height - total_px, 2);
        }
        assert(self.spec_row_y(heights, cnt - 1) + down == self.spec_start_y() + last_end);
    }
}

} // verus!
