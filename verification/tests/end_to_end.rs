use log_plot::area::Rect;
use log_plot::builder::LogPlotBuilder;
use log_plot::draw_ops::{DrawOp, Stroke, TextStyle};
use log_plot::mesh::MeshKeyPoints;
use log_plot::plot_legend::PlotCurve;
use log_plot::PlotError;

const DEPTH_LO: i64 = 1_524_000;
const DEPTH_HI: i64 = 1_850_000;

fn demo_builder() -> LogPlotBuilder {
    LogPlotBuilder::on(Rect::new(0, 0, 550, 5000)).margin(10)
}

#[test]
fn depth_track_demo_layout() {
    // Canvas 550x5000, margin 10 all sides, depth column 100, head 200:
    // the depth body is 4780px tall and maps the domain ends to its edges.
    let builder = demo_builder();
    let ctx = builder.add_depth_area(DEPTH_LO, DEPTH_HI).unwrap();
    assert_eq!(ctx.depth_head, Rect::new(10, 10, 110, 210));
    assert_eq!(ctx.depth_body.rect, Rect::new(10, 210, 110, 4990));
    assert_eq!(ctx.depth_body.rect.height(), 5000 - 20 - 200);
    assert_eq!(ctx.depth_body.coord.map(DEPTH_LO), 210);
    assert_eq!(ctx.depth_body.coord.map(DEPTH_HI), 4990);
    assert_eq!(ctx.drawing_area, Rect::new(110, 10, 540, 4990));
}

#[test]
fn builder_margin_failure() {
    let builder = LogPlotBuilder::on(Rect::new(0, 0, 100, 100)).margin(50);
    assert_eq!(builder.add_depth_area(0, 1000).unwrap_err(), PlotError::Layout);
}

#[test]
fn builder_domain_failure() {
    let builder = demo_builder();
    assert_eq!(builder.add_depth_area(5, 5).unwrap_err(), PlotError::Domain);
}

#[test]
fn channels_consume_and_clamp_to_remainder() {
    // The drawing area is 550 - 100 - 20 = 430 wide. Each channel takes
    // 200px from the shrinking remainder; one that asks for more than is
    // left clamps to the remainder instead of failing.
    let builder = demo_builder();
    let mut ctx = builder.add_depth_area(DEPTH_LO, DEPTH_HI).unwrap();
    assert_eq!(ctx.drawing_area.width(), 430);

    let ch1 = ctx.add_channel(DEPTH_LO, DEPTH_HI).unwrap();
    assert_eq!(ch1.body.rect.x0, 110);
    assert_eq!(ch1.body.rect.x1, 310);
    assert_eq!(ch1.body.rect.width(), 200);
    assert_eq!(ch1.head, Rect::new(110, 10, 310, 210));
    assert_eq!(ctx.drawing_area.width(), 230);

    let ch2 = ctx.add_channel(DEPTH_LO, DEPTH_HI).unwrap();
    assert_eq!(ch2.body.rect.width(), 200);
    assert_eq!(ctx.drawing_area.width(), 30);

    // Only 30px remain: the third channel clamps its width to 30.
    let ch3 = ctx.add_channel(DEPTH_LO, DEPTH_HI).unwrap();
    assert_eq!(ch3.body.rect.width(), 30);
    assert_eq!(ctx.drawing_area.width(), 0);
}

#[test]
fn channel_bodies_share_depth_mapping() {
    let builder = demo_builder();
    let mut ctx = builder.add_depth_area(DEPTH_LO, DEPTH_HI).unwrap();
    let ch = ctx.add_channel(DEPTH_LO, DEPTH_HI).unwrap();
    // The channel body spans the same Y range as the depth body, so equal
    // depths land on equal pixel rows.
    let mid = (DEPTH_LO + DEPTH_HI) / 2;
    assert_eq!(ch.body.coord.map(mid), ctx.depth_body.coord.map(mid));
}

#[test]
fn depth_style_draw_emits_head_outlines_and_ticks() {
    let builder = demo_builder();
    let ctx = builder.add_depth_area(DEPTH_LO, DEPTH_HI).unwrap();
    let mut style = ctx
        .configure_style()
        .title("DEPTH".to_string(), "DEPTH(m)".to_string());
    let keypoints: Vec<i64> = (0..6).map(|i| DEPTH_LO + i * 50_000).collect();
    let ops = style.draw(&ctx, &keypoints).unwrap();
    // 4 head ops, 2 outlines, then the ladder: keypoints 0 and 5 are bold
    // (stride 5), so 2 * 3 + 4 * 1 = 10 tick ops.
    assert_eq!(ops.len(), 16);
    match &ops[0] {
        DrawOp::Text { text, x, y, .. } => {
            assert_eq!(text, "DEPTH");
            // Centered in the title band (10,10)-(110,80).
            assert_eq!((*x, *y), (60, 45));
        },
        other => panic!("expected the title, got {:?}", other),
    }
    // The first tick is bold and sits at the body's top edge.
    match &ops[6] {
        DrawOp::Line { x0, y0, x1, y1, .. } => {
            assert_eq!((*x0, *y0, *x1, *y1), (110 - 13, 210, 110, 210));
        },
        other => panic!("expected the first tick segment, got {:?}", other),
    }
    match &ops[8] {
        DrawOp::Text { text, x, y, h_align, .. } => {
            assert_eq!(text, "1524");
            assert_eq!((*x, *y), (110 - 13 - 8, 210));
            assert!(matches!(h_align, log_plot::draw_ops::HAlign::Right));
        },
        other => panic!("expected the first tick label, got {:?}", other),
    }
    // The next tick is light: one short segment.
    match &ops[9] {
        DrawOp::Line { x0, .. } => assert_eq!(*x0, 110 - 8),
        other => panic!("expected a light tick segment, got {:?}", other),
    }
}

#[test]
fn depth_style_label_override() {
    let builder = demo_builder();
    let ctx = builder.add_depth_area(DEPTH_LO, DEPTH_HI).unwrap();
    let labels: Vec<String> = (0..6).map(|i| format!("L{}", i)).collect();
    let mut style = ctx.configure_style().y_label_formatter(labels);
    let keypoints: Vec<i64> = (0..6).map(|i| DEPTH_LO + i * 50_000).collect();
    let ops = style.draw(&ctx, &keypoints).unwrap();
    match &ops[8] {
        DrawOp::Text { text, .. } => assert_eq!(text, "L0"),
        other => panic!("expected the overridden label, got {:?}", other),
    }
}

#[test]
fn depth_style_second_draw_is_reentrant_error() {
    let builder = demo_builder();
    let ctx = builder.add_depth_area(DEPTH_LO, DEPTH_HI).unwrap();
    let mut style = ctx.configure_style();
    let keypoints: Vec<i64> = vec![DEPTH_LO, DEPTH_HI];
    assert!(style.draw(&ctx, &keypoints).is_ok());
    assert_eq!(
        style.draw(&ctx, &keypoints).unwrap_err(),
        PlotError::ReentrantConfiguration
    );
}

#[test]
fn depth_style_degenerate_span_is_layout_error() {
    // A canvas so short that the body span yields no tick stride.
    let builder = LogPlotBuilder::on(Rect::new(0, 0, 550, 30));
    let ctx = builder.add_depth_area(DEPTH_LO, DEPTH_HI).unwrap();
    let mut style = ctx.configure_style();
    let keypoints: Vec<i64> = vec![DEPTH_LO];
    assert_eq!(style.draw(&ctx, &keypoints).unwrap_err(), PlotError::Layout);
}

fn curve(name: &str, min: i64, max: i64, unit: &str) -> PlotCurve {
    PlotCurve::default()
        .name(name.to_string())
        .range(min, max, unit.to_string())
        .stroke(Stroke::new(1250, 0xff0000ff))
}

#[test]
fn channel_head_packs_legend_or_overflows() {
    let builder = demo_builder();
    let mut ctx = builder.add_depth_area(DEPTH_LO, DEPTH_HI).unwrap();
    let mut ch = ctx.add_channel(DEPTH_LO, DEPTH_HI).unwrap();

    // The detail band is 200 - 70 = 130px tall. Three curves need
    // 3.75 + 3*32 + 2*32 = 163.75px: overflow, and nothing is recorded.
    let three = vec![
        curve("GR", 30_000, 500_000, "gAPI"),
        curve("DTCO", 50_000, 150_000, "us/ft"),
        curve("RHOB", 1_000, 3_000, "g/cm3"),
    ];
    let heights = vec![14, 14, 14];
    assert_eq!(
        ch.draw_head("CURVE", three, &heights).unwrap_err(),
        PlotError::LegendOverflow
    );
    assert!(ch.plot_legend.is_none());

    // Two curves need 2.5 + 2*32 + 32 = 98.5px: they fit.
    let two = vec![
        curve("GR", 30_000, 500_000, "gAPI"),
        curve("DTCO", 50_000, 150_000, "us/ft"),
    ];
    let heights = vec![14, 14];
    let ops = ch.draw_head("CURVE", two, &heights).unwrap();
    assert_eq!(ops.len(), 3 + 5 * 2);
    assert!(ch.plot_legend.is_some());
    let legend = ch.plot_legend.as_ref().unwrap();
    assert_eq!(legend.legends.len(), 2);
    assert_eq!((legend.y0, legend.y1), (80, 210));
}

#[test]
fn mesh_style_draw_emits_both_passes() {
    let builder = demo_builder();
    let mut ctx = builder.add_depth_area(DEPTH_LO, DEPTH_HI).unwrap();
    let mut ch = ctx.add_channel(DEPTH_LO, DEPTH_HI).unwrap();
    let mut style = ch.configure_style().title("CURVE".to_string());
    let keypoints = MeshKeyPoints {
        light_x: vec![150, 200],
        light_y: vec![DEPTH_LO, 1_700_000],
        bold_x: Vec::new(),
        bold_y: vec![DEPTH_LO],
    };
    let ops = style.draw(&mut ch, &Vec::new(), &Vec::new(), &keypoints).unwrap();
    // Head (3 ops, no curves), two outlines, 2 + 2 light lines, 1 bold line.
    assert_eq!(ops.len(), 3 + 2 + 4 + 1);
    // The first light mesh line is horizontal at the body's top.
    match &ops[5] {
        DrawOp::Line { x0, y0, x1, y1, .. } => {
            assert_eq!((*x0, *y0, *x1, *y1), (110, 210, 310, 210));
        },
        other => panic!("expected a horizontal mesh line, got {:?}", other),
    }
    // Then the vertical light lines at the given pixel positions.
    match &ops[7] {
        DrawOp::Line { x0, y0, x1, y1, .. } => {
            assert_eq!((*x0, *y0, *x1, *y1), (150, 210, 150, 4990));
        },
        other => panic!("expected a vertical mesh line, got {:?}", other),
    }
    // A second draw on the same style is a reentrant configuration error.
    assert_eq!(
        style.draw(&mut ch, &Vec::new(), &Vec::new(), &keypoints).unwrap_err(),
        PlotError::ReentrantConfiguration
    );
}

#[test]
fn mesh_toggles_filter_lines() {
    let builder = demo_builder();
    let mut ctx = builder.add_depth_area(DEPTH_LO, DEPTH_HI).unwrap();
    let mut ch = ctx.add_channel(DEPTH_LO, DEPTH_HI).unwrap();
    let mut style = ch.configure_style();
    style.draw_x_mesh = false;
    let keypoints = MeshKeyPoints {
        light_x: vec![150, 200],
        light_y: vec![DEPTH_LO],
        bold_x: vec![160],
        bold_y: Vec::new(),
    };
    let ops = style.draw(&mut ch, &Vec::new(), &Vec::new(), &keypoints).unwrap();
    // Vertical (value) lines are off: only the one horizontal line remains.
    assert_eq!(ops.len(), 3 + 2 + 1);
}

#[test]
fn draw_series_maps_points_and_allocates_annotation() {
    let builder = demo_builder();
    let mut ctx = builder.add_depth_area(DEPTH_LO, DEPTH_HI).unwrap();
    let mut ch = ctx.add_channel(DEPTH_LO, DEPTH_HI).unwrap();
    let points: Vec<(i64, i64)> = vec![(110, DEPTH_LO), (310, DEPTH_HI)];
    let (ops, idx) = ch.draw_series(&points, &Stroke::new(1250, 0xff0000ff));
    assert_eq!(idx, 0);
    assert_eq!(ops.len(), 1);
    match &ops[0] {
        DrawOp::Line { x0, y0, x1, y1, .. } => {
            assert_eq!((*x0, *y0, *x1, *y1), (110, 210, 310, 4990));
        },
        other => panic!("expected the series segment, got {:?}", other),
    }
    let (_, idx2) = ch.draw_series(&points, &Stroke::new(1250, 0xff0000ff));
    assert_eq!(idx2, 1);
    assert_eq!(ch.series_anno.len(), 2);
}

#[test]
fn draw_series_with_range_rebinds_both_axes() {
    let builder = demo_builder();
    let mut ctx = builder.add_depth_area(DEPTH_LO, DEPTH_HI).unwrap();
    let mut ch = ctx.add_channel(DEPTH_LO, DEPTH_HI).unwrap();
    // A curve over [30, 500] gAPI drawn against the shared depth range.
    let points: Vec<(i64, i64)> = vec![
        (30_000, DEPTH_LO),
        (265_000, (DEPTH_LO + DEPTH_HI) / 2),
        (500_000, DEPTH_HI),
    ];
    let (ops, idx) = ch
        .draw_series_with_range(30_000, 500_000, DEPTH_LO, DEPTH_HI, &points, &Stroke::new(1250, 0xff0000ff))
        .unwrap();
    assert_eq!(idx, 0);
    assert_eq!(ops.len(), 2);
    match &ops[0] {
        DrawOp::Line { x0, y0, x1, y1, .. } => {
            assert_eq!((*x0, *y0), (110, 210));
            assert_eq!((*x1, *y1), (210, 2600));
        },
        other => panic!("expected the first segment, got {:?}", other),
    }
    // The body keeps its own binding: the transient system leaves no trace.
    assert_eq!(ch.body.coord.lo, DEPTH_LO);
    // A zero-width value range is a domain error and allocates nothing.
    let bad = ch.draw_series_with_range(7, 7, DEPTH_LO, DEPTH_HI, &Vec::new(), &Stroke::new(1250, 0));
    assert_eq!(bad.unwrap_err(), PlotError::Domain);
    assert_eq!(ch.series_anno.len(), 1);
}

#[test]
fn builder_defaults() {
    let b = LogPlotBuilder::on(Rect::new(0, 0, 550, 5000));
    assert_eq!(b.head_text_style, TextStyle::new(16));
    assert_eq!(b.detail_text_style, TextStyle::new(14));
    assert_eq!(b.depth_area_width, 100);
    assert_eq!(b.head_height, 200);
    assert_eq!(b.title_height, 70);
    let b = b.head_text_style(TextStyle::new(18)).detail_text_style(TextStyle::new(12));
    assert_eq!(b.head_text_style.size, 18);
    assert_eq!(b.detail_text_style.size, 12);
}
