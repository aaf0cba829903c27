use log_plot::draw_ops::{DrawOp, Stroke, TextStyle};
use log_plot::format::format_value;
use log_plot::plot_legend::{PlotCurve, PlotLegend};
use log_plot::PlotError;

fn two_curves() -> Vec<PlotCurve> {
    let c1 = PlotCurve::default()
        .name("GR".to_string())
        .range(30_000, 500_000, "gAPI".to_string())
        .stroke(Stroke::new(1250, 0xff0000ff));
    let c2 = PlotCurve::default()
        .name("DTCO".to_string())
        .range(50_000, 150_000, "us/ft".to_string())
        .stroke(Stroke::new(1250, 0x0000ffff));
    vec![c1, c2]
}

#[test]
fn formatter_whole_values() {
    assert_eq!(format_value(1_524_000), "1524");
    assert_eq!(format_value(0), "0");
    assert_eq!(format_value(-2_000), "-2");
}

#[test]
fn formatter_fractions_trim_trailing_zeros() {
    assert_eq!(format_value(30_500), "30.5");
    assert_eq!(format_value(1_250), "1.25");
    assert_eq!(format_value(1_001), "1.001");
    assert_eq!(format_value(100), "0.1");
    assert_eq!(format_value(-1_250), "-1.25");
}

#[test]
fn legend_total_height_two_curves() {
    // Two curves of stroke width 1.25 each, line sizes 14 and 12:
    // 2.5 + 33*2 + 33 = 101.5px, in milli-pixels.
    let legend = PlotLegend::new(
        0,
        0,
        200,
        500,
        two_curves(),
        TextStyle::new(14),
        TextStyle::new(12),
    );
    assert_eq!(legend.total_height_millis(), 101_500);
}

#[test]
fn legend_overflow_below_102px() {
    // A band shorter than 102px cannot hold the 101.5px block.
    let legend = PlotLegend::new(
        0,
        0,
        200,
        101,
        two_curves(),
        TextStyle::new(14),
        TextStyle::new(12),
    );
    let heights = vec![14, 14];
    assert_eq!(legend.draw(&heights), Err(PlotError::LegendOverflow));
}

#[test]
fn legend_fits_at_102px_and_centers() {
    let legend = PlotLegend::new(
        0,
        0,
        200,
        102,
        two_curves(),
        TextStyle::new(14),
        TextStyle::new(12),
    );
    let heights = vec![14, 14];
    let ops = legend.draw(&heights).unwrap();
    // Five operations per curve: name, swatch, min, unit, max.
    assert_eq!(ops.len(), 10);
    // The block is centered: 102 - 101 leaves margins 0 and 1.
    let start_y = 0 + (102 - 101) / 2;
    match &ops[0] {
        DrawOp::Text { text, size, x, y, .. } => {
            assert_eq!(text, "GR");
            assert_eq!(*size, 14);
            assert_eq!(*x, 100);
            assert_eq!(*y, start_y);
        },
        other => panic!("expected the first curve's name, got {:?}", other),
    }
    // Swatch line: name height 14 plus the 5px gap below the name.
    match &ops[1] {
        DrawOp::Line { x0, y0, x1, y1, stroke } => {
            assert_eq!((*x0, *x1), (0, 200));
            assert_eq!(*y0, start_y + 14 + 5);
            assert_eq!(*y1, *y0);
            assert_eq!(stroke.width_millis, 1250);
        },
        other => panic!("expected the first swatch line, got {:?}", other),
    }
    // Numeric row: min left, unit centered, max right, 2px under the swatch.
    let row_y = start_y + 14 + 5 + 2;
    match &ops[2] {
        DrawOp::Text { text, x, y, .. } => {
            assert_eq!(text, "30");
            assert_eq!(*x, 5);
            assert_eq!(*y, row_y);
        },
        other => panic!("expected the first minimum, got {:?}", other),
    }
    match &ops[3] {
        DrawOp::Text { text, x, .. } => {
            assert_eq!(text, "gAPI");
            assert_eq!(*x, 100);
        },
        other => panic!("expected the first unit, got {:?}", other),
    }
    match &ops[4] {
        DrawOp::Text { text, x, .. } => {
            assert_eq!(text, "500");
            assert_eq!(*x, 195);
        },
        other => panic!("expected the first maximum, got {:?}", other),
    }
    // The second curve's row starts one row plus one spacing further down.
    match &ops[5] {
        DrawOp::Text { text, y, .. } => {
            assert_eq!(text, "DTCO");
            assert_eq!(*y, row_y + 33);
        },
        other => panic!("expected the second curve's name, got {:?}", other),
    }
    // The last glyph row ends inside the band.
    match &ops[7] {
        DrawOp::Text { y, .. } => {
            assert!(*y + 12 <= 102);
        },
        other => panic!("expected the second minimum, got {:?}", other),
    }
}

#[test]
fn legend_empty_is_trivially_ok() {
    let legend = PlotLegend::new(0, 0, 50, 1, Vec::new(), TextStyle::new(14), TextStyle::new(12));
    let ops = legend.draw(&Vec::new()).unwrap();
    assert!(ops.is_empty());
}

#[test]
fn curve_builder_sets_fields() {
    let c = PlotCurve::default()
        .name("GR".to_string())
        .range(30_000, 500_000, "gAPI".to_string())
        .stroke(Stroke::new(1250, 0xff0000ff));
    assert_eq!(c.name, "GR");
    assert_eq!(c.min, 30_000);
    assert_eq!(c.max, 500_000);
    assert_eq!(c.unit, "gAPI");
    assert_eq!(c.stroke.width_millis, 1250);
}
