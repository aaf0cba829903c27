use log_plot::area::{apply_margin, clamp_to, split_horizontally, split_vertically, PlotMargin, Rect};
use log_plot::PlotError;

#[test]
fn margin_shrinks_by_insets() {
    // For valid margins the result is (W - left - right) x (H - top - bottom).
    let r = Rect::new(0, 0, 550, 5000);
    let m = PlotMargin { top: 10, bottom: 10, left: 10, right: 10 };
    let inner = apply_margin(&r, &m).unwrap();
    assert_eq!(inner, Rect::new(10, 10, 540, 4990));
    assert_eq!(inner.width(), 530);
    assert_eq!(inner.height(), 4980);
}

#[test]
fn margin_asymmetric() {
    let r = Rect::new(5, 7, 105, 207);
    let m = PlotMargin { top: 1, bottom: 2, left: 3, right: 4 };
    let inner = apply_margin(&r, &m).unwrap();
    assert_eq!(inner, Rect::new(8, 8, 101, 205));
    assert_eq!(inner.width(), 100 - 3 - 4);
    assert_eq!(inner.height(), 200 - 1 - 2);
}

#[test]
fn margin_degenerate_is_layout_error() {
    let r = Rect::new(0, 0, 100, 100);
    // left + right == width: zero-width result.
    let m = PlotMargin { top: 0, bottom: 0, left: 50, right: 50 };
    assert_eq!(apply_margin(&r, &m), Err(PlotError::Layout));
    // top + bottom > height.
    let m = PlotMargin { top: 80, bottom: 30, left: 0, right: 0 };
    assert_eq!(apply_margin(&r, &m), Err(PlotError::Layout));
    // Just inside the bound succeeds.
    let m = PlotMargin { top: 49, bottom: 50, left: 49, right: 50 };
    assert!(apply_margin(&r, &m).is_ok());
}

#[test]
fn split_horizontally_widths_sum() {
    // For all left_width in [0, W] the two widths sum to W and heights stay.
    let r = Rect::new(10, 20, 110, 220);
    for w in [0i64, 1, 37, 50, 99, 100] {
        let (a, b) = split_horizontally(&r, w);
        assert_eq!(a.width() + b.width(), r.width());
        assert_eq!(a.height(), r.height());
        assert_eq!(b.height(), r.height());
        assert_eq!(a.width(), w);
        assert_eq!(a.x1, b.x0);
    }
}

#[test]
fn split_clamps_out_of_range() {
    let r = Rect::new(0, 0, 100, 50);
    let (a, b) = split_horizontally(&r, 230);
    assert_eq!(a.width(), 100);
    assert_eq!(b.width(), 0);
    let (a, b) = split_horizontally(&r, -5);
    assert_eq!(a.width(), 0);
    assert_eq!(b.width(), 100);
    let (t, d) = split_vertically(&r, 70);
    assert_eq!(t.height(), 50);
    assert_eq!(d.height(), 0);
}

#[test]
fn split_vertically_heights_sum() {
    let r = Rect::new(10, 10, 110, 210);
    for h in [0i64, 70, 200] {
        let (a, b) = split_vertically(&r, h);
        assert_eq!(a.height() + b.height(), r.height());
        assert_eq!(a.width(), r.width());
        assert_eq!(b.width(), r.width());
        assert_eq!(a.height(), h);
        assert_eq!(a.y1, b.y0);
    }
}

#[test]
fn clamp_to_limits() {
    assert_eq!(clamp_to(-3, 10), 0);
    assert_eq!(clamp_to(4, 10), 4);
    assert_eq!(clamp_to(11, 10), 10);
}

#[test]
fn uniform_margin_clamps_negative_sizes() {
    let m = PlotMargin::uniform(-7);
    assert_eq!((m.top, m.bottom, m.left, m.right), (0, 0, 0, 0));
    let m = PlotMargin::uniform(10);
    assert_eq!((m.top, m.bottom, m.left, m.right), (10, 10, 10, 10));
}
