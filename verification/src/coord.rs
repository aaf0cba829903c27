//! Vertical coordinate system: a monotonic transform binding a logical
//! 1-D value domain to a pixel span.
//!
//! Logical values are fixed-point integers in milli-units (one unit of depth
//! or measurement is 1000). The transform maps `v` in `[lo, hi]` to
//! `p0 + (v - lo) * (p1 - p0) / (hi - lo)`, rounded toward the span's start,
//! so the domain's endpoints land exactly on the span's endpoints. Re-binding
//! keeps a pixel rectangle and swaps its logical domain, which lets one
//! plotting body host curves with different value ranges.

use vstd::prelude::*;

use vstd::arithmetic::div_mod::lemma_div_is_ordered;
use vstd::arithmetic::div_mod::lemma_div_multiples_vanish;
use vstd::arithmetic::div_mod::lemma_div_multiples_vanish_fancy;
use vstd::arithmetic::div_mod::lemma_div_of0;
use vstd::arithmetic::div_mod::lemma_fundamental_div_mod;
use vstd::arithmetic::mul::lemma_mul_inequality;

use crate::area::Rect;
use crate::PlotError;
use crate::MAX_PIXEL;

verus! {

/// Largest magnitude of a logical value (in milli-units) the layout accepts.
pub const MAX_VALUE: i64 = 0x4_0000_0000_0000;

/// A monotonic transform from the logical domain `[lo, hi]` (milli-units)
/// onto the pixel span `[p0, p1]`: `lo` maps to `p0` and `hi` to `p1`.
#[derive(Clone, Copy, Debug, PartialEq, Eq, Structural)]
pub struct Coord1d {
    pub lo: i64,
    pub hi: i64,
    pub p0: i64,
    pub p1: i64,
}

impl Coord1d {
    /// An ascending domain of positive width, bound to an ordered,
    /// non-negative pixel span.
    pub open spec fn wf(self) -> bool {
        &&& -MAX_VALUE <= self.lo < self.hi <= MAX_VALUE
        &&& 0 <= self.p0 <= self.p1 <= MAX_PIXEL
    }

    /// Where `v` lands in pixel space: the exact mathematical transform,
    /// rounded down to a whole pixel.
    pub open spec fn spec_map(self, v: int) -> int {
        self.p0 + ((v - self.lo) * (self.p1 - self.p0)) / (self.hi - self.lo)
    }

    /// Bind the domain `[lo, hi]` to the pixel span `[p0, p1]`. Fails with a
    /// domain error exactly when the domain is empty or descending.
    pub fn new(lo: i64, hi: i64, p0: i64, p1: i64) -> (res: Result<Coord1d, PlotError>)
        requires
            -MAX_VALUE <= lo <= MAX_VALUE,
            -MAX_VALUE <= hi <= MAX_VALUE,
            0 <= p0 <= p1 <= MAX_PIXEL,
        ensures
            res is Ok <==> lo < hi,
            res matches Ok(c) ==> c == (Coord1d { lo, hi, p0, p1 }) && c.wf(),
            res matches Err(e) ==> e == PlotError::Domain,
    {
        if lo < hi {
            Ok(Coord1d { lo, hi, p0, p1 })
        } else {
            Err(PlotError::Domain)
        }
    }

    /// Map a logical value inside the domain to its pixel position.
    pub fn map(&self, v: i64) -> (r: i64)
        requires
            self.wf(),
            self.lo <= v <= self.hi,
        ensures
            r == self.spec_map(v as int),
            self.p0 <= r <= self.p1,
    {
        proof {
            self.lemma_map_in_span(v as int);
            assert((v - self.lo) * (self.p1 - self.p0) <= 0x8_0000_0000_0000 * 0x8000_0000)
                by (nonlinear_arith)
                requires
                    0 <= v - self.lo <= 0x8_0000_0000_0000,
                    0 <= self.p1 - self.p0 <= 0x8000_0000,
            ;
        }
        let num = ((v - self.lo) as u128) * ((self.p1 - self.p0) as u128);
        let den = (self.hi - self.lo) as u128;
        let q = (num / den) as i64;
        self.p0 + q
    }

    /// The image of a domain value lies within the bound pixel span.
    pub proof fn lemma_map_in_span(self, v: int)
        requires
            self.wf(),
            self.lo <= v <= self.hi,
        ensures
            self.p0 <= self.spec_map(v) <= self.p1,
    {
        let num = (v - self.lo) * (self.p1 - self.p0);
        let den = self.hi - self.lo;
        let span = self.p1 - self.p0;
        assert(0 <= num) by {
            lemma_mul_inequality(0, v - self.lo, span);
        }
        assert(num <= den * span) by {
            lemma_mul_inequality(v - self.lo, den, span);
        }
        assert(num / den >= 0) by {
            lemma_div_of0(den);
            lemma_div_is_ordered(0, num, den);
        }
        assert(num / den <= span) by {
            lemma_div_is_ordered(num, den * span, den);
            lemma_div_multiples_vanish(span, den);
        }
    }

    /// The transform is monotonic: an order on domain values is kept by
    /// their pixel images.
    pub proof fn lemma_map_monotonic(self, v1: int, v2: int)
        requires
            self.wf(),
            self.lo <= v1 <= v2 <= self.hi,
        ensures
            self.spec_map(v1) <= self.spec_map(v2),
    {
        let span = self.p1 - self.p0;
        let den = self.hi - self.lo;
        assert((v1 - self.lo) * span <= (v2 - self.lo) * span) by {
            lemma_mul_inequality(v1 - self.lo, v2 - self.lo, span);
        }
        lemma_div_is_ordered((v1 - self.lo) * span, (v2 - self.lo) * span, den);
    }

    /// Binding a domain and mapping its endpoints lands exactly on the pixel
    /// span's endpoints; a domain midpoint representable in the milli-unit
    /// grid lands on the span's midpoint.
    pub proof fn lemma_round_trip(self)
        requires
            self.wf(),
        ensures
            self.spec_map(self.lo as int) == self.p0,
            self.spec_map(self.hi as int) == self.p1,
            (self.lo + self.hi) % 2 == 0 ==> self.spec_map((self.lo + self.hi) / 2) == (self.p0
                + self.p1) / 2,
    {
        let den = self.hi - self.lo;
        let span = self.p1 - self.p0;
        assert(self.spec_map(self.lo as int) == self.p0) by {
            lemma_div_of0(den);
        }
        assert(self.spec_map(self.hi as int) == self.p1) by {
            lemma_div_multiples_vanish(span, den);
            assert(den * span == (self.hi - self.lo) * span) by {
                vstd::arithmetic::mul::lemma_mul_is_commutative(den, span);
            }
        }
        if (self.lo + self.hi) % 2 == 0 {
            let mid = (self.lo + self.hi) / 2;
            lemma_fundamental_div_mod(self.lo + self.hi, 2);
            assert(mid - self.lo == den / 2);
            lemma_fundamental_div_mod(den, 2);
            let e = den / 2;
            assert(den == 2 * e);
            assert(e >= 1);
            lemma_fundamental_div_mod(span, 2);
            let q = span / 2;
            let r = span % 2;
            assert(span == 2 * q + r && 0 <= r < 2);
            assert(e * span == den * q + e * r) by (nonlinear_arith)
                requires
                    span == 2 * q + r,
                    den == 2 * e,
            ;
            assert(0 <= e * r < den) by (nonlinear_arith)
                requires
                    den == 2 * e,
                    e >= 1,
                    0 <= r < 2,
            ;
            assert((den * q + e * r) / den == q) by {
                lemma_div_multiples_vanish_fancy(q, e * r, den);
            }
            assert(self.spec_map(mid) == self.p0 + q);
            assert((self.p0 + self.p1) / 2 == self.p0 + q) by {
                assert(self.p0 + self.p1 == 2 * (self.p0 + q) + r);
                lemma_div_multiples_vanish_fancy(self.p0 + q, r, 2);
            }
        }
    }
}

/// A pixel rectangle together with the vertical transform bound to its
/// Y-span: the plotting body of a track.
#[derive(Clone, Copy, Debug, PartialEq, Eq, Structural)]
pub struct ValueBoundArea {
    pub rect: Rect,
    pub coord: Coord1d,
}

impl ValueBoundArea {
    /// The transform spans exactly the rectangle's Y extent.
    pub open spec fn wf(self) -> bool {
        &&& self.rect.wf()
        &&& self.coord.wf()
        &&& self.coord.p0 == self.rect.y0
        &&& self.coord.p1 == self.rect.y1
    }
}

/// Attach to `rect` a monotonic transform mapping the domain `[lo, hi]`
/// (milli-units) onto the rectangle's pixel Y-span. The rectangle is kept
/// as it is; an empty or descending domain is a domain error.
pub fn bind_coordinate(rect: &Rect, lo: i64, hi: i64) -> (res: Result<ValueBoundArea, PlotError>)
    requires
        rect.wf(),
        -MAX_VALUE <= lo <= MAX_VALUE,
        -MAX_VALUE <= hi <= MAX_VALUE,
    ensures
        res is Ok <==> lo < hi,
        res matches Ok(a) ==> {
            &&& a.rect == *rect
            &&& a.coord == (Coord1d { lo, hi, p0: rect.y0, p1: rect.y1 })
            &&& a.wf()
        },
        res matches Err(e) ==> e == PlotError::Domain,
{
    match Coord1d::new(lo, hi, rect.y0, rect.y1) {
        Ok(coord) => Ok(ValueBoundArea { rect: *rect, coord }),
        Err(e) => Err(e),
    }
}

/// Keep a bound area's pixel rectangle and swap its logical domain: the
/// re-binding that lets several curves share one plotting body.
pub fn rebind(area: &ValueBoundArea, lo: i64, hi: i64) -> (res: Result<ValueBoundArea, PlotError>)
    requires
        area.wf(),
        -MAX_VALUE <= lo <= MAX_VALUE,
        -MAX_VALUE <= hi <= MAX_VALUE,
    ensures
        res is Ok <==> lo < hi,
        res matches Ok(a) ==> {
            &&& a.rect == area.rect
            &&& a.coord == (Coord1d { lo, hi, p0: area.rect.y0, p1: area.rect.y1 })
            &&& a.wf()
        },
        res matches Err(e) ==> e == PlotError::Domain,
{
    bind_coordinate(&area.rect, lo, hi)
}

} // verus!
