//! The chart builder.
use crate::binary64::ONE;
use crate::chart::{label_or_empty, label_text, text_of, trace_of, Chart, ChartView, Trace};
use crate::conversion::AsSliceF64;
use crate::matrix::{array_rows, dmatrix_nrows, dmatrix_row, DynMatrix};
use crate::naming::{line_label, line_name, row_label, row_name};
use crate::palette::{palette_color, ColorAllocator};
use crate::series::{enumerate, indexed_points, zip, zipped_points, PlotData, PlotDataView};
use egui::Color32;
use vstd::prelude::*;

verus! {

/// The settings that hold for the chart as a whole.
struct Options {
    window_name: String,
    legend: bool,
    xlabel: Option<String>,
    ylabel: Option<String>,
    aspect_ratio: Option<u64>,
}

/// A chart under construction: its series in the order in which they were added, the
/// chart's options, and the allocator of default colours.
///
/// Every builder method takes the chart and gives back the updated one. Methods that
/// style a series act on the one added last.
pub struct MiniPlot {
    data: Vec<PlotData>,
    options: Options,
    colors: ColorAllocator,
}

/// What a [`MiniPlot`] stands for.
pub struct MiniPlotView {
    /// The series, oldest first.
    pub series: Seq<PlotDataView>,
    /// Title of the window; fixed at construction.
    pub window_name: Seq<char>,
    /// Whether a legend is shown.
    pub legend: bool,
    /// Label of the horizontal axis, if one was set.
    pub xlabel: Option<Seq<char>>,
    /// Label of the vertical axis, if one was set.
    pub ylabel: Option<Seq<char>>,
    /// Width over height as a binary64 pattern, if one was set.
    pub aspect_ratio: Option<u64>,
    /// How many default colours have been handed out.
    pub color_index: nat,
}

impl MiniPlotView {
    /// A chart without series; nothing set but the title.
    pub open spec fn empty(window_name: Seq<char>) -> MiniPlotView {
        MiniPlotView {
            series: Seq::empty(),
            window_name,
            legend: false,
            xlabel: None,
            ylabel: None,
            aspect_ratio: None,
            color_index: 0,
        }
    }

    /// The default colour that the next series will get.
    pub open spec fn next_color(self) -> Color32 {
        palette_color(self.color_index + 1)
    }

    /// The chart after one colour has been taken from the allocator.
    pub open spec fn get_color(self) -> MiniPlotView {
        MiniPlotView { color_index: self.color_index + 1, ..self }
    }

    /// The chart with one more series: a solid line in the next default colour.
    pub open spec fn push(self, name: Seq<char>, points: Seq<[u64; 2]>) -> MiniPlotView {
        MiniPlotView {
            series: self.series.push(PlotDataView::plain(name, points, self.next_color())),
            color_index: self.color_index + 1,
            ..self
        }
    }

    /// The chart after `plot`: `ys` against their positions.
    pub open spec fn plot(self, ys: Seq<u64>) -> MiniPlotView {
        self.push(line_name(self.series.len()), indexed_points(ys))
    }

    /// The chart after `plot_xy`: `xs` paired with `ys`.
    pub open spec fn plot_xy(self, xs: Seq<u64>, ys: Seq<u64>) -> MiniPlotView {
        self.push(line_name(self.series.len()), zipped_points(xs, ys))
    }

    /// The chart after `plot_points`.
    pub open spec fn plot_points(self, points: Seq<[u64; 2]>) -> MiniPlotView {
        self.push(line_name(self.series.len()), points)
    }

    /// The chart after `matrix_rows`: one series for each row, top to bottom. Row `i` is
    /// paired with `x`, named after its number, and coloured by the `i`-th colour taken.
    pub open spec fn matrix_rows(self, x: Seq<u64>, rows: Seq<Seq<u64>>) -> MiniPlotView {
        MiniPlotView {
            series: self.series + Seq::new(
                rows.len(),
                |i: int|
                    PlotDataView::plain(
                        row_name(i as nat),
                        zipped_points(x, rows[i]),
                        palette_color((self.color_index + 1 + i) as nat),
                    ),
            ),
            color_index: self.color_index + rows.len(),
            ..self
        }
    }

    /// The chart with its last series replaced by `last`; unchanged if it has no series.
    pub open spec fn with_last(self, last: PlotDataView) -> MiniPlotView {
        if self.series.len() == 0 {
            self
        } else {
            MiniPlotView { series: self.series.update(self.series.len() - 1, last), ..self }
        }
    }

    /// The chart after `dashed`.
    pub open spec fn dashed(self) -> MiniPlotView {
        self.with_last(PlotDataView { dashed: true, ..self.series.last() })
    }

    /// The chart after `dotted`.
    pub open spec fn dotted(self) -> MiniPlotView {
        self.with_last(PlotDataView { dotted: true, ..self.series.last() })
    }

    /// The chart after `pointed`.
    pub open spec fn pointed(self) -> MiniPlotView {
        self.with_last(PlotDataView { pointed: true, ..self.series.last() })
    }

    /// The chart after `color`.
    pub open spec fn color(self, color: Color32) -> MiniPlotView {
        self.with_last(PlotDataView { color, ..self.series.last() })
    }

    /// The chart after `name`.
    pub open spec fn name(self, name: Seq<char>) -> MiniPlotView {
        self.with_last(PlotDataView { name, ..self.series.last() })
    }
}

/// Plotting no rows leaves the chart as it is.
proof fn lemma_rows_none(v: MiniPlotView, x: Seq<u64>, rows: Seq<Seq<u64>>)
    ensures
        v.matrix_rows(x, rows.take(0)) == v,
{
    assert(v.matrix_rows(x, rows.take(0)).series =~= v.series);
}

/// Plotting the first `i + 1` rows is plotting the first `i` and then appending row `i`.
proof fn lemma_rows_one_more(v: MiniPlotView, x: Seq<u64>, rows: Seq<Seq<u64>>, i: int)
    requires
        0 <= i < rows.len(),
    ensures
        v.matrix_rows(x, rows.take(i + 1)) == v.matrix_rows(x, rows.take(i)).push(
            row_name(i as nat),
            zipped_points(x, rows[i]),
        ),
{
    let a = v.matrix_rows(x, rows.take(i + 1));
    let b = v.matrix_rows(x, rows.take(i)).push(row_name(i as nat), zipped_points(x, rows[i]));
    assert(a.series =~= b.series);
}

/// The chart that a finished builder describes: every series as a trace, in order; the
/// axis labels empty where none was set.
pub open spec fn chart_of(v: MiniPlotView) -> ChartView {
    ChartView {
        title: v.window_name,
        x_axis_label: label_text(v.xlabel),
        y_axis_label: label_text(v.ylabel),
        legend: v.legend,
        aspect_ratio: v.aspect_ratio,
        traces: Seq::new(v.series.len(), |i: int| trace_of(v.series[i])),
    }
}

impl View for MiniPlot {
    type V = MiniPlotView;

    closed spec fn view(&self) -> MiniPlotView {
        MiniPlotView {
            series: Seq::new(self.data@.len(), |i: int| self.data@[i]@),
            window_name: self.options.window_name@,
            legend: self.options.legend,
            xlabel: text_of(self.options.xlabel),
            ylabel: text_of(self.options.ylabel),
            aspect_ratio: self.options.aspect_ratio,
            color_index: self.colors@,
        }
    }
}

impl MiniPlot {
    /// A chart without series, shown in a window titled `window_name`.
    pub fn new(window_name: &str) -> (plot: MiniPlot)
        ensures
            plot@ == MiniPlotView::empty(window_name@),
    {
        let plot = MiniPlot {
            data: Vec::new(),
            options: Options {
                window_name: window_name.to_owned(),
                legend: false,
                xlabel: None,
                ylabel: None,
                aspect_ratio: None,
            },
            colors: ColorAllocator::new(),
        };
        assert(plot@.series =~= Seq::empty());
        plot
    }

    /// The number of series.
    pub fn len(&self) -> (n: usize)
        ensures
            n == self@.series.len(),
    {
        self.data.len()
    }

    /// The series added as the `i`-th, counting from zero; `None` when there are not
    /// that many.
    pub fn series(&self, i: usize) -> (s: Option<&PlotData>)
        ensures
            i < self@.series.len() ==> s is Some && s->Some_0@ == self@.series[i as int],
            i >= self@.series.len() ==> s is None,
    {
        if i < self.data.len() {
            Some(&self.data[i])
        } else {
            None
        }
    }

    /// Takes the next default colour from the allocator.
    pub fn get_color(&mut self) -> (c: Color32)
        ensures
            c == old(self)@.next_color(),
            final(self)@ == old(self)@.get_color(),
    {
        self.colors.next_color()
    }

    /// Sets the label of the horizontal axis.
    pub fn xlabel(self, label: &str) -> (plot: MiniPlot)
        ensures
            plot@ == (MiniPlotView { xlabel: Some(label@), ..self@ }),
    {
        let mut plot = self;
        plot.options.xlabel = Some(label.to_owned());
        plot
    }

    /// Sets the label of the vertical axis.
    pub fn ylabel(self, label: &str) -> (plot: MiniPlot)
        ensures
            plot@ == (MiniPlotView { ylabel: Some(label@), ..self@ }),
    {
        let mut plot = self;
        plot.options.ylabel = Some(label.to_owned());
        plot
    }

    /// Turns the legend on. Nothing turns it off again.
    pub fn legend(self) -> (plot: MiniPlot)
        ensures
            plot@ == (MiniPlotView { legend: true, ..self@ }),
    {
        let mut plot = self;
        plot.options.legend = true;
        plot
    }

    /// Fixes the ratio of width to height, given as a binary64 pattern.
    pub fn aspect_ratio(self, ratio: u64) -> (plot: MiniPlot)
        ensures
            plot@ == (MiniPlotView { aspect_ratio: Some(ratio), ..self@ }),
    {
        let mut plot = self;
        plot.options.aspect_ratio = Some(ratio);
        plot
    }

    /// Fixes the ratio of width to height at one.
    pub fn square_aspect_ratio(self) -> (plot: MiniPlot)
        ensures
            plot@ == (MiniPlotView { aspect_ratio: Some(ONE), ..self@ }),
    {
        let mut plot = self;
        plot.options.aspect_ratio = Some(ONE);
        plot
    }

    /// Appends a series with the next default colour.
    fn push(self, name: String, points: Vec<[u64; 2]>) -> (plot: MiniPlot)
        ensures
            plot@ == self@.push(name@, points@),
    {
        let mut plot = self;
        let color = plot.colors.next_color();
        plot.data.push(PlotData { name, points, color, ..Default::default() });
        assert(plot@.series =~= self@.push(name@, points@).series);
        plot
    }

    /// Plots `line` against the positions of its values: point `i` is `(i, line[i])`.
    /// The series is named `Line n`, where `n` series were there before it.
    pub fn plot<L: AsSliceF64>(self, line: L) -> (plot: MiniPlot)
        ensures
            plot@ == self@.plot(line.elements()),
    {
        let points = enumerate(line.as_slice_f64());
        let name = line_label(self.data.len());
        self.push(name, points)
    }

    /// Plots `y` against `x`, pairing them element by element. Where one is longer than
    /// the other, what it holds beyond the other's end is left out.
    pub fn plot_xy<X: AsSliceF64, Y: AsSliceF64>(self, x: X, y: Y) -> (plot: MiniPlot)
        ensures
            plot@ == self@.plot_xy(x.elements(), y.elements()),
    {
        let points = zip(x.as_slice_f64(), y.as_slice_f64());
        let name = line_label(self.data.len());
        self.push(name, points)
    }

    /// Plots the given points as they are.
    pub fn plot_points(self, points: Vec<[u64; 2]>) -> (plot: MiniPlot)
        ensures
            plot@ == self@.plot_points(points@),
    {
        let name = line_label(self.data.len());
        self.push(name, points)
    }

    /// Appends row `i` of a matrix, paired with the shared `x`.
    fn push_row(self, x: &[u64], row: &[u64], i: usize) -> (plot: MiniPlot)
        ensures
            plot@ == self@.push(row_name(i as nat), zipped_points(x@, row@)),
    {
        let points = zip(x, row);
        self.push(row_label(i), points)
    }

    /// Plots every row of `y` against the shared `x`, one series for each row, named
    /// `Row i` after the row's number and coloured each with a default colour of its own.
    pub fn matrix_rows(self, x: &[u64], y: &DynMatrix) -> (plot: MiniPlot)
        ensures
            plot@ == self@.matrix_rows(x@, y@),
    {
        let mut plot = self;
        let n = dmatrix_nrows(y);
        let mut i: usize = 0;
        proof {
            lemma_rows_none(self@, x@, y@);
        }
        while i < n
            invariant
                n == y@.len(),
                i <= n,
                plot@ == self@.matrix_rows(x@, y@.take(i as int)),
            decreases n - i,
        {
            let row = dmatrix_row(y, i);
            proof {
                lemma_rows_one_more(self@, x@, y@, i as int);
            }
            plot = plot.push_row(x, row.as_slice(), i);
            i = i + 1;
        }
        assert(y@.take(n as int) =~= y@);
        plot
    }

    /// Plots every row of the fixed-size matrix `y` against the shared `x`, as
    /// [`MiniPlot::matrix_rows`] does for a matrix sized at run time.
    pub fn smatrix_rows<const R: usize, const C: usize>(self, x: &[u64], y: &[[u64; C]; R]) -> (plot:
        MiniPlot)
        ensures
            plot@ == self@.matrix_rows(x@, array_rows(*y)),
    {
        let mut plot = self;
        let mut i: usize = 0;
        let ghost rows = array_rows(*y);
        proof {
            lemma_rows_none(self@, x@, rows);
        }
        while i < R
            invariant
                rows == array_rows(*y),
                i <= R,
                plot@ == self@.matrix_rows(x@, rows.take(i as int)),
            decreases R - i,
        {
            proof {
                lemma_rows_one_more(self@, x@, rows, i as int);
            }
            plot = plot.push_row(x, y[i].as_slice(), i);
            i = i + 1;
        }
        assert(rows.take(R as int) =~= rows);
        plot
    }

    /// Draws the series added last as a dashed line; does nothing to a chart without
    /// series.
    pub fn dashed(self) -> (plot: MiniPlot)
        ensures
            plot@ == self@.dashed(),
    {
        let mut plot = self;
        if let Some(last) = plot.data.last_mut() {
            last.dashed = true;
        }
        assert(plot@.series =~= self@.dashed().series);
        plot
    }

    /// Draws the series added last as a dotted line; does nothing to a chart without
    /// series. Where a series is both dashed and dotted, it is drawn dashed.
    pub fn dotted(self) -> (plot: MiniPlot)
        ensures
            plot@ == self@.dotted(),
    {
        let mut plot = self;
        if let Some(last) = plot.data.last_mut() {
            last.dotted = true;
        }
        assert(plot@.series =~= self@.dotted().series);
        plot
    }

    /// Marks every point of the series added last, besides drawing its line; does
    /// nothing to a chart without series.
    pub fn pointed(self) -> (plot: MiniPlot)
        ensures
            plot@ == self@.pointed(),
    {
        let mut plot = self;
        if let Some(last) = plot.data.last_mut() {
            last.pointed = true;
        }
        assert(plot@.series =~= self@.pointed().series);
        plot
    }

    /// Gives the series added last the colour `color`; does nothing to a chart without
    /// series.
    pub fn color(self, color: Color32) -> (plot: MiniPlot)
        ensures
            plot@ == self@.color(color),
    {
        let mut plot = self;
        if let Some(last) = plot.data.last_mut() {
            last.color = color;
        }
        assert(plot@.series =~= self@.color(color).series);
        plot
    }

    /// Gives the series added last the name `name`; does nothing to a chart without
    /// series.
    pub fn name(self, name: &str) -> (plot: MiniPlot)
        ensures
            plot@ == self@.name(name@),
    {
        let mut plot = self;
        if let Some(last) = plot.data.last_mut() {
            last.name = name.to_owned();
        }
        assert(plot@.series =~= self@.name(name@).series);
        plot
    }

    /// Describes the chart as it stands, for drawing.
    pub fn show_plot(&self) -> (chart: Chart)
        ensures
            chart@ == chart_of(self@),
    {
        let mut traces: Vec<Trace> = Vec::new();
        let n = self.data.len();
        let mut i: usize = 0;
        while i < n
            invariant
                n == self.data@.len(),
                i <= n,
                traces@.len() == i,
                forall|k: int| 0 <= k < i ==> (#[trigger] traces@[k])@ == trace_of(self.data@[k]@),
            decreases n - i,
        {
            traces.push(self.data[i].trace());
            i = i + 1;
        }
        let chart = Chart {
            title: self.options.window_name.clone(),
            x_axis_label: label_or_empty(&self.options.xlabel),
            y_axis_label: label_or_empty(&self.options.ylabel),
            legend: self.options.legend,
            aspect_ratio: self.options.aspect_ratio,
            traces,
        };
        assert(chart@.traces =~= chart_of(self@).traces);
        chart
    }

    /// Finishes the chart: gives it up and returns its description for drawing.
    pub fn show(self) -> (chart: Chart)
        ensures
            chart@ == chart_of(self@),
    {
        self.show_plot()
    }
}

} // verus!
