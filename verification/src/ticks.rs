//! Tick/mesh density classification.
//!
//! Given a pixel span `[start, end]`, the classifier derives target counts of
//! bold and light ticks: the span length is divided by `end / 40` — the
//! divisor is deliberately a function of the span's end coordinate, not a
//! plain constant — and every fifth index of the resulting walk counts as
//! bold. The concrete tick values come from an external key-point generator
//! fed those counts; the final bold/light decision is always the local
//! stride pass over whatever the generator returned: tick `i` is bold
//! exactly when `i` is a multiple of the stride.

use vstd::prelude::*;

use vstd::arithmetic::div_mod::lemma_div_is_ordered;
use vstd::arithmetic::div_mod::lemma_div_multiples_vanish;
use vstd::arithmetic::div_mod::lemma_div_nonincreasing;
use vstd::arithmetic::div_mod::lemma_div_pos_is_pos;

use crate::coord::Coord1d;
use crate::PlotError;
use crate::MAX_PIXEL;

verus! {

/// The nominal tick budget: about this many gridlines across a span.
pub const TICK_TARGET: i64 = 40;

/// Every fifth index of the density walk counts as a bold tick.
pub const BOLD_EVERY: i64 = 5;

/// The walk's stride across the pixel span: span length over `end / 40`.
pub open spec fn spec_tick_step(start: int, end: int) -> int {
    (end - start) / (end / TICK_TARGET as int)
}

/// How many indices the walk over `[start, end)` with stride `step` visits.
pub open spec fn spec_walk_count(start: int, end: int, step: int) -> int {
    ((end - start) + step - 1) / step
}

/// How many of `n` walked indices are bold: those with `i % 5 == 0`.
pub open spec fn spec_bold_count(n: int) -> int {
    (n + BOLD_EVERY - 1) / (BOLD_EVERY as int)
}

/// Derive the `(bold, light)` density hints for the pixel span
/// `[start, end]`. These are handed to the external key-point generator.
/// The span is degenerate — a layout error — exactly when the divisor
/// `end / 40` is zero or the span is shorter than the divisor, since the
/// walk would then have no finite stride.
pub fn tick_counts(start: i64, end: i64) -> (res: Result<(usize, usize), PlotError>)
    requires
        0 <= start <= end <= MAX_PIXEL,
    ensures
        res is Ok <==> (end as int) / (TICK_TARGET as int) >= 1 && spec_tick_step(
            start as int,
            end as int,
        ) >= 1,
        res matches Ok(c) ==> {
            &&& c.0 == spec_bold_count(
                spec_walk_count(
                    start as int,
                    end as int,
                    spec_tick_step(start as int, end as int),
                ),
            )
            &&& c.0 + c.1 == spec_walk_count(
                start as int,
                end as int,
                spec_tick_step(start as int, end as int),
            )
            &&& c.0 >= 1
            &&& c.0 + c.1 <= end - start
        },
        res matches Err(e) ==> e == PlotError::Layout,
{
    let divisor = end / TICK_TARGET;
    if divisor < 1 {
        return Err(PlotError::Layout);
    }
    let len = end - start;
    let step = len / divisor;
    if step < 1 {
        return Err(PlotError::Layout);
    }
    proof {
        lemma_div_pos_is_pos(len as int + step - 1, step as int);
        assert(spec_walk_count(start as int, end as int, step as int) >= 1) by {
            lemma_div_is_ordered(step as int, len as int + step - 1, step as int);
            lemma_div_multiples_vanish(1, step as int);
        }
        lemma_div_nonincreasing(len as int + step - 1, step as int);
        lemma_div_pos_is_pos(len as int, divisor as int);
    }
    proof {
        assert(len + step - 1 <= len * step) by (nonlinear_arith)
            requires
                len >= 1,
                step >= 1,
        ;
        assert(spec_walk_count(start as int, end as int, step as int) <= len) by {
            lemma_div_is_ordered(len as int + step - 1, len as int * step, step as int);
            vstd::arithmetic::div_mod::lemma_div_by_multiple(len as int, step as int);
        }
    }
    let n = (len + step - 1) / step;
    proof {
        lemma_div_pos_is_pos(n as int + BOLD_EVERY - 1, BOLD_EVERY as int);
        assert(spec_bold_count(n as int) >= 1) by {
            lemma_div_is_ordered(BOLD_EVERY as int, n as int + BOLD_EVERY - 1, BOLD_EVERY as int);
            lemma_div_multiples_vanish(1, BOLD_EVERY as int);
        }
        assert(spec_bold_count(n as int) <= n) by {
            lemma_div_nonincreasing(n as int + BOLD_EVERY - 1, BOLD_EVERY as int);
        }
    }
    let bold = (n + BOLD_EVERY - 1) / BOLD_EVERY;
    let light = n - bold;
    Ok((bold as usize, light as usize))
}

/// The re-classification stride over the generator's output: with hints
/// `(bold, light)`, tick `i` is bold exactly when `i` is a multiple of
/// `round(light / bold) + 1`.
pub open spec fn spec_bold_stride(bold: int, light: int) -> int {
    (2 * light + bold) / (2 * bold) + 1
}

/// Compute the bold stride from the density hints.
pub fn bold_stride(bold: usize, light: usize) -> (k: usize)
    requires
        1 <= bold <= MAX_PIXEL,
        light <= MAX_PIXEL,
    ensures
        k == spec_bold_stride(bold as int, light as int),
        k >= 1,
{
    let b = bold as u64;
    let l = light as u64;
    proof {
        let q = (2 * l as int + b) / (2 * b as int);
        lemma_div_pos_is_pos(2 * l as int + b, 2 * b as int);
        assert(q <= (2 * l as int + b) / 2) by {
            vstd::arithmetic::div_mod::lemma_div_is_ordered_by_denominator(
                2 * l as int + b,
                2,
                2 * b as int,
            );
        }
        assert((b as int) / 2 + l == (b as int + l * 2) / 2) by {
            vstd::arithmetic::div_mod::lemma_hoist_over_denominator(b as int, l as int, 2nat);
        }
    }
    let k64 = (2 * l + b) / (2 * b) + 1;
    k64 as usize
}

/// One gridline to draw: a logical value, its pixel position under the
/// bound transform, and its density tier.
#[derive(Clone, Copy, Debug, PartialEq, Eq, Structural)]
pub struct TickPoint {
    pub value: i64,
    pub pixel: i64,
    pub bold: bool,
}

/// What classifying the generator output `keypoints` against the transform
/// `coord` with stride `k` yields.
pub open spec fn spec_ticks(coord: Coord1d, keypoints: Seq<i64>, k: int) -> Seq<TickPoint> {
    Seq::new(
        keypoints.len(),
        |i: int|
            TickPoint {
                value: keypoints[i],
                pixel: coord.spec_map(keypoints[i] as int) as i64,
                bold: i % k == 0,
            },
    )
}

/// Re-classify the key-point generator's output for drawing: the `i`-th
/// returned tick is bold exactly when `i` is a multiple of `k`, whatever
/// counts were requested, and each tick is mapped to pixel space.
pub fn classify_ticks(coord: &Coord1d, keypoints: &Vec<i64>, k: usize) -> (r: Vec<TickPoint>)
    requires
        coord.wf(),
        k >= 1,
        forall|i: int| 0 <= i < keypoints.len() ==> coord.lo <= #[trigger] keypoints[i] <= coord.hi,
    ensures
        r@ == spec_ticks(*coord, keypoints@, k as int),
{
    let mut out: Vec<TickPoint> = Vec::new();
    let mut i: usize = 0;
    while i < keypoints.len()
        invariant
            coord.wf(),
            k >= 1,
            forall|j: int|
                0 <= j < keypoints.len() ==> coord.lo <= #[trigger] keypoints[j] <= coord.hi,
            i <= keypoints.len(),
            out@ == spec_ticks(*coord, keypoints@, k as int).take(i as int),
        decreases keypoints.len() - i,
    {
        let v = keypoints[i];
        let pixel = coord.map(v);
        let bold = i % k == 0;
        out.push(TickPoint { value: v, pixel, bold });
        proof {
            assert(out@ =~= spec_ticks(*coord, keypoints@, k as int).take(i as int + 1));
        }
        i += 1;
    }
    proof {
        assert(out@ =~= spec_ticks(*coord, keypoints@, k as int));
    }
    out
}

/// Tick classification is deterministic: which indices come out bold depends
/// only on the stride and on how many values the generator returned — not on
/// the transform, so re-running the pass over the same generator output
/// always marks the same index set bold.
pub proof fn lemma_tick_classification_deterministic(
    c1: Coord1d,
    c2: Coord1d,
    keypoints: Seq<i64>,
    k: int,
)
    ensures
        forall|i: int|
            0 <= i < keypoints.len() ==> #[trigger] spec_ticks(c1, keypoints, k)[i].bold
                == spec_ticks(c2, keypoints, k)[i].bold,
        forall|i: int|
            0 <= i < keypoints.len() ==> #[trigger] spec_ticks(c1, keypoints, k)[i].bold == (i % k
                == 0),
{
}

} // verus!
