//! The finished chart, as it is handed to whoever draws it.
use crate::series::{PlotData, PlotDataView};
use egui::Color32;
use vstd::prelude::*;

verus! {

/// Radius of the marker drawn at each point of a series that shows its points.
pub const MARKER_RADIUS: u8 = 4;

/// How the line of a series is drawn.
#[derive(Clone, Copy, Debug, PartialEq, Eq, Structural)]
pub enum LineStyle {
    Solid,
    Dashed,
    Dotted,
}

/// The style that the two flags of a series select: dashed wins over dotted, and a
/// series with neither flag is drawn solid.
pub open spec fn style_of(dashed: bool, dotted: bool) -> LineStyle {
    if dashed {
        LineStyle::Dashed
    } else if dotted {
        LineStyle::Dotted
    } else {
        LineStyle::Solid
    }
}

/// One series, ready to be drawn: a line through `points` in `style`, and a marker at
/// every point where `markers` is set, both in `color`.
#[derive(Debug)]
pub struct Trace {
    pub name: String,
    pub points: Vec<[u64; 2]>,
    pub color: Color32,
    pub style: LineStyle,
    pub markers: bool,
}

/// What a [`Trace`] stands for.
pub struct TraceView {
    pub name: Seq<char>,
    pub points: Seq<[u64; 2]>,
    pub color: Color32,
    pub style: LineStyle,
    pub markers: bool,
}

impl View for Trace {
    type V = TraceView;

    open spec fn view(&self) -> TraceView {
        TraceView {
            name: self.name@,
            points: self.points@,
            color: self.color,
            style: self.style,
            markers: self.markers,
        }
    }
}

/// A whole chart, ready to be drawn: the traces in the order in which they are drawn
/// and listed in the legend, and the settings of the chart.
#[derive(Debug)]
pub struct Chart {
    pub title: String,
    pub x_axis_label: String,
    pub y_axis_label: String,
    pub legend: bool,
    pub aspect_ratio: Option<u64>,
    pub traces: Vec<Trace>,
}

/// What a [`Chart`] stands for.
pub struct ChartView {
    pub title: Seq<char>,
    pub x_axis_label: Seq<char>,
    pub y_axis_label: Seq<char>,
    pub legend: bool,
    pub aspect_ratio: Option<u64>,
    pub traces: Seq<TraceView>,
}

impl View for Chart {
    type V = ChartView;

    open spec fn view(&self) -> ChartView {
        ChartView {
            title: self.title@,
            x_axis_label: self.x_axis_label@,
            y_axis_label: self.y_axis_label@,
            legend: self.legend,
            aspect_ratio: self.aspect_ratio,
            traces: Seq::new(self.traces@.len(), |i: int| self.traces@[i]@),
        }
    }
}

/// The trace that draws a series.
pub open spec fn trace_of(s: PlotDataView) -> TraceView {
    TraceView {
        name: s.name,
        points: s.points,
        color: s.color,
        style: style_of(s.dashed, s.dotted),
        markers: s.pointed,
    }
}

/// The text of an optional string.
pub open spec fn text_of(s: Option<String>) -> Option<Seq<char>> {
    match s {
        Some(s) => Some(s@),
        None => None,
    }
}

/// The text of a label: empty where none was set.
pub open spec fn label_text(label: Option<Seq<char>>) -> Seq<char> {
    match label {
        Some(text) => text,
        None => Seq::empty(),
    }
}

/// A copy of `points`.
fn copy_points(points: &Vec<[u64; 2]>) -> (copy: Vec<[u64; 2]>)
    ensures
        copy@ == points@,
{
    let mut copy: Vec<[u64; 2]> = Vec::new();
    let n = points.len();
    let mut i: usize = 0;
    while i < n
        invariant
            n == points@.len(),
            i <= n,
            copy@ == points@.take(i as int),
        decreases n - i,
    {
        copy.push(points[i]);
        i = i + 1;
        assert(copy@ =~= points@.take(i as int));
    }
    assert(copy@ =~= points@);
    copy
}

/// A copy of an optional label; the empty string where there is none.
pub fn label_or_empty(label: &Option<String>) -> (text: String)
    ensures
        text@ == label_text(text_of(*label)),
{
    match label {
        Some(text) => text.clone(),
        None => String::new(),
    }
}

impl PlotData {
    /// The style in which the line of this series is drawn.
    pub fn style(&self) -> (style: LineStyle)
        ensures
            style == style_of(self.dashed, self.dotted),
    {
        if self.dashed {
            LineStyle::Dashed
        } else if self.dotted {
            LineStyle::Dotted
        } else {
            LineStyle::Solid
        }
    }

    /// The trace that draws this series.
    pub fn trace(&self) -> (trace: Trace)
        ensures
            trace@ == trace_of(self@),
    {
        Trace {
            name: self.name.clone(),
            points: copy_points(&self.points),
            color: self.color,
            style: self.style(),
            markers: self.pointed,
        }
    }
}

} // verus!
