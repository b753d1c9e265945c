//! What follows from the builder's contracts, proved once for every chart.
use crate::binary64::{
    lemma_binary64_fits, lemma_binary64_nearest, lemma_floor_log2_below, stands_for,
};
use crate::matrix::{array_entries, array_rows};
use crate::naming::row_name;
use crate::palette::palette_color;
use crate::plot::MiniPlotView;
use crate::series::{indexed_points, zipped_points, PlotDataView};
use egui::Color32;
use vstd::arithmetic::div_mod::lemma_fundamental_div_mod_converse;
use vstd::arithmetic::power2::{lemma2_to64_rest, pow2};
use vstd::prelude::*;

verus! {

/// The shorter of two lengths.
pub open spec fn shorter(a: nat, b: nat) -> nat {
    if a <= b {
        a
    } else {
        b
    }
}

/// Plotting values against their positions yields one point for each value. Point `i`
/// has the value as its ordinate, and the position `i` itself as its abscissa: zero is
/// the all-zero pattern, and every other position below `2^53` has a pattern that stands
/// for exactly that integer.
pub proof fn lemma_indexed_points(ys: Seq<u64>, i: int)
    requires
        0 <= i < ys.len(),
        i < pow2(53),
    ensures
        indexed_points(ys).len() == ys.len(),
        indexed_points(ys)[i][1] == ys[i],
        i == 0 ==> indexed_points(ys)[i][0] == 0,
        i > 0 ==> stands_for(indexed_points(ys)[i][0] as nat, i as nat),
{
    if i > 0 {
        lemma2_to64_rest();
        lemma_floor_log2_below(i as nat, 53);
        lemma_binary64_nearest(i as nat);
        lemma_binary64_fits(i as nat);
    }
}

/// Pairing two sequences yields as many points as the shorter one has elements, and
/// point `i` pairs the `i`-th elements.
pub proof fn lemma_zipped_points(xs: Seq<u64>, ys: Seq<u64>)
    ensures
        zipped_points(xs, ys).len() == shorter(xs.len(), ys.len()),
        forall|i: int|
            0 <= i < shorter(xs.len(), ys.len()) ==> {
                &&& (#[trigger] zipped_points(xs, ys)[i])[0] == xs[i]
                &&& zipped_points(xs, ys)[i][1] == ys[i]
            },
{
}

/// A fixed-size matrix with `R` rows and `C` columns lends `R * C` entries, and the entry
/// of row `i` and column `j` is the one at position `i * C + j`.
pub proof fn lemma_array_entries<const R: usize, const C: usize>(y: [[u64; C]; R], i: int, j: int)
    requires
        0 <= i < R,
        0 <= j < C,
    ensures
        array_entries(y).len() == R * C,
        0 <= i * C + j < R * C,
        array_entries(y)[i * C + j] == array_rows(y)[i][j],
{
    assert(0 <= i * C + j < R * C) by (nonlinear_arith)
        requires
            0 <= i < R,
            0 <= j < C,
    ;
    assert(i * C + j == C * i + j) by (nonlinear_arith);
    lemma_fundamental_div_mod_converse(i * C + j, C as int, i, j);
}

/// Plotting the rows of a matrix with `rows.len()` rows and `ncols` columns adds exactly
/// one series for each row and leaves the earlier series as they were. The series of
/// row `i` is named `Row i`, has `ncols` points, or as many as `x` has elements if those
/// are fewer, and takes the `i`-th of the default colours handed out for the matrix.
pub proof fn lemma_matrix_rows_shape(v: MiniPlotView, x: Seq<u64>, rows: Seq<Seq<u64>>, ncols: nat)
    requires
        forall|i: int| 0 <= i < rows.len() ==> (#[trigger] rows[i]).len() == ncols,
    ensures
        v.matrix_rows(x, rows).series.len() == v.series.len() + rows.len(),
        v.matrix_rows(x, rows).color_index == v.color_index + rows.len(),
        forall|k: int|
            0 <= k < v.series.len() ==> #[trigger] v.matrix_rows(x, rows).series[k]
                == v.series[k],
        forall|i: int|
            0 <= i < rows.len() ==> {
                let s = #[trigger] v.matrix_rows(x, rows).series[v.series.len() + i];
                &&& s.name == row_name(i as nat)
                &&& s.points.len() == shorter(ncols, x.len())
                &&& s.points == zipped_points(x, rows[i])
                &&& s.color == palette_color((v.color_index + 1 + i) as nat)
                &&& !s.dashed && !s.dotted && !s.pointed
            },
{
}

/// On a chart without series, the methods that style the last series change nothing:
/// the chart still has no series afterwards.
pub proof fn lemma_no_series_nothing_styled(v: MiniPlotView, color: Color32, name: Seq<char>)
    requires
        v.series.len() == 0,
    ensures
        v.dashed() == v,
        v.dotted() == v,
        v.pointed() == v,
        v.color(color) == v,
        v.name(name) == v,
{
}

/// The methods that style the last series leave every earlier series, the number of
/// series, the chart's options and the colour count as they were.
pub proof fn lemma_styling_keeps_earlier_series(
    v: MiniPlotView,
    color: Color32,
    name: Seq<char>,
    k: int,
)
    requires
        0 <= k < v.series.len() - 1,
    ensures
        v.dashed().series[k] == v.series[k],
        v.dotted().series[k] == v.series[k],
        v.pointed().series[k] == v.series[k],
        v.color(color).series[k] == v.series[k],
        v.name(name).series[k] == v.series[k],
        v.dashed().series.len() == v.series.len(),
        v.dotted().series.len() == v.series.len(),
        v.pointed().series.len() == v.series.len(),
        v.color(color).series.len() == v.series.len(),
        v.name(name).series.len() == v.series.len(),
{
}

/// On a chart with at least one series, each styling method changes the one field of
/// the last series that it is named after, and nothing else of that series.
pub proof fn lemma_styling_changes_last_series(v: MiniPlotView, color: Color32, name: Seq<char>)
    requires
        v.series.len() > 0,
    ensures
        v.dashed().series.last() == (PlotDataView { dashed: true, ..v.series.last() }),
        v.dotted().series.last() == (PlotDataView { dotted: true, ..v.series.last() }),
        v.pointed().series.last() == (PlotDataView { pointed: true, ..v.series.last() }),
        v.color(color).series.last() == (PlotDataView { color, ..v.series.last() }),
        v.name(name).series.last() == (PlotDataView { name, ..v.series.last() }),
{
}

/// A colour set after two series were added reaches the second and never the first:
/// the first keeps the default colour it was given, whatever the chart held before.
pub proof fn lemma_color_reaches_last_added(
    v: MiniPlotView,
    name_a: Seq<char>,
    points_a: Seq<[u64; 2]>,
    name_b: Seq<char>,
    points_b: Seq<[u64; 2]>,
    color: Color32,
)
    ensures
        ({
            let n = v.series.len() as int;
            let after = v.push(name_a, points_a).push(name_b, points_b).color(color);
            &&& after.series.len() == n + 2
            &&& forall|k: int| 0 <= k < n ==> #[trigger] after.series[k] == v.series[k]
            &&& after.series[n] == PlotDataView::plain(
                name_a,
                points_a,
                palette_color(v.color_index + 1),
            )
            &&& after.series[n + 1] == PlotDataView::plain(name_b, points_b, color)
        }),
{
}

} // verus!
