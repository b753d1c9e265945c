use miniplot::binary64::ONE;
use miniplot::chart::MARKER_RADIUS;
use miniplot::palette::get_color;
use miniplot::{Color32, LineStyle, MiniPlot, PlotData};

fn bits(values: &[f64]) -> Vec<u64> {
    values.iter().map(|v| v.to_bits()).collect()
}

#[test]
fn new_chart_is_empty() {
    let plot = MiniPlot::new("Joint Angles");
    assert_eq!(plot.len(), 0);
    assert!(plot.series(0).is_none());
    let chart = plot.show();
    assert_eq!(chart.title, "Joint Angles");
    assert_eq!(chart.x_axis_label, "");
    assert_eq!(chart.y_axis_label, "");
    assert!(!chart.legend);
    assert_eq!(chart.aspect_ratio, None);
    assert!(chart.traces.is_empty());
}

#[test]
fn default_series_is_plain_and_transparent() {
    let series = PlotData::default();
    assert_eq!(series.name, "");
    assert!(series.points.is_empty());
    assert_eq!(series.color, Color32::TRANSPARENT);
    assert!(!series.dashed && !series.dotted && !series.pointed);
    assert_eq!(series.style(), LineStyle::Solid);
}

#[test]
fn styling_before_any_series_does_nothing() {
    assert_eq!(MiniPlot::new("t").dashed().len(), 0);
    assert_eq!(MiniPlot::new("t").dotted().len(), 0);
    assert_eq!(MiniPlot::new("t").pointed().len(), 0);
    assert_eq!(MiniPlot::new("t").color(Color32::RED).len(), 0);
    assert_eq!(MiniPlot::new("t").name("nobody").len(), 0);
    let plot = MiniPlot::new("t").dashed().dotted().pointed().color(Color32::RED).name("nobody");
    assert_eq!(plot.len(), 0);
    let plot = plot.plot(bits(&[1.0]));
    let series = plot.series(0).unwrap();
    assert_eq!(series.name, "Line 0");
    assert_eq!(series.color, get_color(1));
    assert!(!series.dashed && !series.dotted && !series.pointed);
}

#[test]
fn color_reaches_only_the_last_series() {
    let plot = MiniPlot::new("t")
        .plot(bits(&[1.0, 2.0]))
        .plot(bits(&[3.0, 4.0]))
        .color(Color32::RED);
    assert_eq!(plot.len(), 2);
    assert_eq!(plot.series(0).unwrap().color, get_color(1));
    assert_eq!(plot.series(1).unwrap().color, Color32::RED);
    assert_eq!(plot.series(0).unwrap().name, "Line 0");
    assert_eq!(plot.series(1).unwrap().name, "Line 1");
}

#[test]
fn styling_reaches_only_the_last_series() {
    let first = bits(&[1.0, 2.0]);
    let plot = MiniPlot::new("t")
        .plot(first.clone())
        .plot(bits(&[3.0]))
        .dashed()
        .dotted()
        .pointed()
        .name("second");
    let a = plot.series(0).unwrap();
    let b = plot.series(1).unwrap();
    assert!(!a.dashed && !a.dotted && !a.pointed);
    assert_eq!(a.name, "Line 0");
    assert_eq!(a.points.len(), first.len());
    assert!(b.dashed && b.dotted && b.pointed);
    assert_eq!(b.name, "second");
    assert_eq!(b.color, get_color(2));
}

#[test]
fn styling_after_a_matrix_reaches_its_last_row() {
    let x = bits(&[0.0, 1.0]);
    let y = miniplot::DynMatrix::from_row_slice(3, 2, &bits(&[1.0, 2.0, 3.0, 4.0, 5.0, 6.0])).unwrap();
    let plot = MiniPlot::new("t").matrix_rows(&x, &y).pointed().color(Color32::BLUE);
    assert!(!plot.series(0).unwrap().pointed);
    assert!(!plot.series(1).unwrap().pointed);
    assert!(plot.series(2).unwrap().pointed);
    assert_eq!(plot.series(0).unwrap().color, get_color(1));
    assert_eq!(plot.series(1).unwrap().color, get_color(2));
    assert_eq!(plot.series(2).unwrap().color, Color32::BLUE);
}

#[test]
fn an_overridden_color_does_not_hold_the_cycle_back() {
    let plot = MiniPlot::new("t")
        .plot(bits(&[1.0]))
        .color(Color32::GREEN)
        .plot(bits(&[1.0]));
    assert_eq!(plot.series(0).unwrap().color, Color32::GREEN);
    assert_eq!(plot.series(1).unwrap().color, get_color(2));
}

#[test]
fn name_can_be_set_again() {
    let plot = MiniPlot::new("t").plot(bits(&[1.0])).name("first").name("final");
    assert_eq!(plot.series(0).unwrap().name, "final");
}

#[test]
fn labels_keep_the_last_value() {
    let chart = MiniPlot::new("t")
        .xlabel("Time")
        .ylabel("Angle [rad]")
        .xlabel("Seconds")
        .show();
    assert_eq!(chart.x_axis_label, "Seconds");
    assert_eq!(chart.y_axis_label, "Angle [rad]");
}

#[test]
fn labels_can_be_set_to_the_empty_string() {
    let chart = MiniPlot::new("t").xlabel("Time").xlabel("").show();
    assert_eq!(chart.x_axis_label, "");
}

#[test]
fn legend_stays_on() {
    assert!(!MiniPlot::new("t").show().legend);
    assert!(MiniPlot::new("t").legend().show().legend);
    assert!(MiniPlot::new("t").legend().legend().xlabel("x").plot(bits(&[1.0])).show().legend);
}

#[test]
fn aspect_ratio_keeps_the_last_value() {
    assert_eq!(MiniPlot::new("t").aspect_ratio(2.5f64.to_bits()).show().aspect_ratio, Some(2.5f64.to_bits()));
    assert_eq!(MiniPlot::new("t").square_aspect_ratio().show().aspect_ratio, Some(1.0f64.to_bits()));
    assert_eq!(MiniPlot::new("t").square_aspect_ratio().show().aspect_ratio, Some(ONE));
    assert_eq!(
        MiniPlot::new("t").square_aspect_ratio().aspect_ratio(0.5f64.to_bits()).show().aspect_ratio,
        Some(0.5f64.to_bits())
    );
    assert_eq!(
        MiniPlot::new("t").aspect_ratio(0.5f64.to_bits()).square_aspect_ratio().show().aspect_ratio,
        Some(ONE)
    );
}

#[test]
fn options_do_not_touch_the_series() {
    let plot = MiniPlot::new("t")
        .plot(bits(&[1.0, 2.0]))
        .xlabel("x")
        .ylabel("y")
        .legend()
        .square_aspect_ratio();
    assert_eq!(plot.len(), 1);
    assert_eq!(plot.series(0).unwrap().name, "Line 0");
    assert_eq!(plot.series(0).unwrap().color, get_color(1));
    let plot = plot.plot(bits(&[1.0]));
    assert_eq!(plot.series(1).unwrap().color, get_color(2));
}

#[test]
fn dashed_wins_over_dotted() {
    let chart = MiniPlot::new("t")
        .plot(bits(&[1.0]))
        .plot(bits(&[1.0]))
        .dashed()
        .plot(bits(&[1.0]))
        .dotted()
        .plot(bits(&[1.0]))
        .dotted()
        .dashed()
        .plot(bits(&[1.0]))
        .dashed()
        .dotted()
        .show();
    let styles: Vec<LineStyle> = chart.traces.iter().map(|t| t.style).collect();
    assert_eq!(
        styles,
        vec![LineStyle::Solid, LineStyle::Dashed, LineStyle::Dotted, LineStyle::Dashed, LineStyle::Dashed]
    );
    assert!(chart.traces.iter().all(|t| !t.markers));
}

#[test]
fn markers_go_with_any_line_style() {
    let chart = MiniPlot::new("t")
        .plot(bits(&[1.0]))
        .pointed()
        .plot(bits(&[1.0]))
        .dashed()
        .pointed()
        .plot(bits(&[1.0]))
        .pointed()
        .dotted()
        .plot(bits(&[1.0]))
        .show();
    let seen: Vec<(LineStyle, bool)> = chart.traces.iter().map(|t| (t.style, t.markers)).collect();
    assert_eq!(
        seen,
        vec![
            (LineStyle::Solid, true),
            (LineStyle::Dashed, true),
            (LineStyle::Dotted, true),
            (LineStyle::Solid, false),
        ]
    );
    assert_eq!(MARKER_RADIUS, 4);
}

#[test]
fn series_style_follows_its_flags() {
    let mut series = PlotData::default();
    assert_eq!(series.style(), LineStyle::Solid);
    series.dotted = true;
    assert_eq!(series.style(), LineStyle::Dotted);
    series.dashed = true;
    assert_eq!(series.style(), LineStyle::Dashed);
    series.dotted = false;
    assert_eq!(series.style(), LineStyle::Dashed);
}

#[test]
fn trace_carries_the_series_over() {
    let series = PlotData {
        name: "wave".to_string(),
        points: vec![[1, 2], [3, 4]],
        color: Color32::GOLD,
        dashed: false,
        dotted: true,
        pointed: true,
    };
    let trace = series.trace();
    assert_eq!(trace.name, "wave");
    assert_eq!(trace.points, vec![[1, 2], [3, 4]]);
    assert_eq!(trace.color, Color32::GOLD);
    assert_eq!(trace.style, LineStyle::Dotted);
    assert!(trace.markers);
}

#[test]
fn show_keeps_the_series_in_order() {
    let x = bits(&[0.0, 1.0]);
    let y = miniplot::DynMatrix::from_row_slice(2, 2, &bits(&[1.0, 2.0, 3.0, 4.0])).unwrap();
    let plot = MiniPlot::new("Joint Angles")
        .xlabel("Time")
        .ylabel("Angle [rad]")
        .matrix_rows(&x, &y)
        .pointed()
        .plot(bits(&[9.0, 8.0, 7.0]))
        .name("Line")
        .color(Color32::RED)
        .dashed()
        .legend();
    let chart = plot.show_plot();
    assert_eq!(chart.title, "Joint Angles");
    assert_eq!(chart.x_axis_label, "Time");
    assert_eq!(chart.y_axis_label, "Angle [rad]");
    assert!(chart.legend);
    assert_eq!(chart.traces.len(), 3);
    for i in 0..3 {
        let series = plot.series(i).unwrap();
        let trace = &chart.traces[i];
        assert_eq!(trace.name, series.name);
        assert_eq!(trace.points, series.points);
        assert_eq!(trace.color, series.color);
        assert_eq!(trace.markers, series.pointed);
    }
    let names: Vec<&str> = chart.traces.iter().map(|t| t.name.as_str()).collect();
    assert_eq!(names, vec!["Row 0", "Row 1", "Line"]);
    assert_eq!(chart.traces[1].style, LineStyle::Solid);
    assert!(chart.traces[1].markers);
    assert_eq!(chart.traces[2].style, LineStyle::Dashed);
    assert_eq!(chart.traces[2].color, Color32::RED);
    let again = plot.show();
    assert_eq!(again.traces.len(), chart.traces.len());
    assert_eq!(again.title, chart.title);
}
