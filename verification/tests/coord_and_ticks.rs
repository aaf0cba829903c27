use log_plot::area::Rect;
use log_plot::coord::{bind_coordinate, rebind, Coord1d};
use log_plot::ticks::{bold_stride, classify_ticks, tick_counts};
use log_plot::PlotError;

#[test]
fn coordinate_round_trip() {
    // Binding [lo, hi] and mapping lo and hi yields the span's endpoints
    // exactly; the domain midpoint maps to the span's midpoint.
    let c = Coord1d::new(1_524_000, 1_850_000, 210, 4990).unwrap();
    assert_eq!(c.map(1_524_000), 210);
    assert_eq!(c.map(1_850_000), 4990);
    assert_eq!(c.map((1_524_000 + 1_850_000) / 2), (210 + 4990) / 2);
}

#[test]
fn coordinate_is_monotonic_and_proportional() {
    let c = Coord1d::new(0, 1000, 0, 100).unwrap();
    assert_eq!(c.map(0), 0);
    assert_eq!(c.map(250), 25);
    assert_eq!(c.map(500), 50);
    assert_eq!(c.map(1000), 100);
    let mut prev = c.map(0);
    for v in [1i64, 7, 100, 999, 1000] {
        let y = c.map(v);
        assert!(y >= prev);
        prev = y;
    }
}

#[test]
fn zero_width_domain_is_domain_error() {
    assert_eq!(Coord1d::new(5, 5, 0, 10), Err(PlotError::Domain));
    assert_eq!(Coord1d::new(9, 5, 0, 10), Err(PlotError::Domain));
    let r = Rect::new(0, 0, 10, 10);
    assert!(matches!(bind_coordinate(&r, 3, 3), Err(PlotError::Domain)));
}

#[test]
fn rebind_keeps_rectangle() {
    let r = Rect::new(0, 100, 200, 600);
    let a = bind_coordinate(&r, 0, 1000).unwrap();
    let b = rebind(&a, 30_000, 500_000).unwrap();
    assert_eq!(b.rect, r);
    assert_eq!(b.coord.p0, 100);
    assert_eq!(b.coord.p1, 600);
    assert_eq!(b.coord.lo, 30_000);
    assert_eq!(b.coord.hi, 500_000);
}

#[test]
fn tick_counts_tall_span() {
    // Span [210, 4990]: divisor 4990/40 = 124, stride 4780/124 = 38,
    // 126 indices walked, every fifth bold: 26 bold, 100 light.
    let (bold, light) = tick_counts(210, 4990).unwrap();
    assert_eq!((bold, light), (26, 100));
    // Stride: round(100/26) + 1 = 5.
    assert_eq!(bold_stride(bold, light), 5);
}

#[test]
fn tick_counts_degenerate_spans() {
    // The divisor end/40 is zero.
    assert_eq!(tick_counts(0, 39), Err(PlotError::Layout));
    // Empty span: the walk has no stride.
    assert_eq!(tick_counts(100, 100), Err(PlotError::Layout));
    // Span shorter than the divisor.
    assert_eq!(tick_counts(4980, 4990), Err(PlotError::Layout));
}

#[test]
fn classification_marks_every_kth_bold() {
    let c = Coord1d::new(0, 100, 0, 100).unwrap();
    let kps: Vec<i64> = (0..23).map(|i| i * 4).collect();
    let ticks = classify_ticks(&c, &kps, 5);
    assert_eq!(ticks.len(), 23);
    for (i, t) in ticks.iter().enumerate() {
        assert_eq!(t.bold, i % 5 == 0);
        assert_eq!(t.value, kps[i]);
    }
}

#[test]
fn classification_is_deterministic() {
    // Re-running the pass over the same generator output marks the same
    // index set bold, whatever the span.
    let c1 = Coord1d::new(0, 100, 0, 100).unwrap();
    let c2 = Coord1d::new(0, 100, 300, 9000).unwrap();
    let kps: Vec<i64> = vec![0, 10, 20, 30, 40, 50, 60];
    let a = classify_ticks(&c1, &kps, 3);
    let b = classify_ticks(&c1, &kps, 3);
    let c = classify_ticks(&c2, &kps, 3);
    assert_eq!(a, b);
    for i in 0..kps.len() {
        assert_eq!(a[i].bold, c[i].bold);
        assert_eq!(a[i].bold, i % 3 == 0);
    }
}

#[test]
fn classification_ignores_requested_counts() {
    // The generator may return any number of values; the bold/light decision
    // is the local stride pass over what came back.
    let c = Coord1d::new(0, 1000, 0, 100).unwrap();
    let kps: Vec<i64> = vec![0, 500, 1000];
    let ticks = classify_ticks(&c, &kps, 2);
    assert_eq!(ticks.len(), 3);
    assert!(ticks[0].bold);
    assert!(!ticks[1].bold);
    assert!(ticks[2].bold);
    assert_eq!(ticks[1].pixel, 50);
}
