//! One trace of a chart: its name, its points and how it is drawn.
use crate::binary64::{binary64_of_nat, index_to_bits};
use crate::palette::{color_from_rgba, color_rgba};
use egui::Color32;
use vstd::prelude::*;

verus! {

/// A named, coloured sequence of points. A point is a pair of binary64 patterns, `x`
/// first.
#[derive(Debug)]
pub struct PlotData {
    pub name: String,
    pub points: Vec<[u64; 2]>,
    pub color: Color32,
    pub dashed: bool,
    pub dotted: bool,
    pub pointed: bool,
}

/// What a [`PlotData`] stands for.
pub struct PlotDataView {
    pub name: Seq<char>,
    pub points: Seq<[u64; 2]>,
    pub color: Color32,
    pub dashed: bool,
    pub dotted: bool,
    pub pointed: bool,
}

impl View for PlotData {
    type V = PlotDataView;

    open spec fn view(&self) -> PlotDataView {
        PlotDataView {
            name: self.name@,
            points: self.points@,
            color: self.color,
            dashed: self.dashed,
            dotted: self.dotted,
            pointed: self.pointed,
        }
    }
}

impl PlotDataView {
    /// A solid line without markers.
    pub open spec fn plain(name: Seq<char>, points: Seq<[u64; 2]>, color: Color32) -> PlotDataView {
        PlotDataView { name, points, color, dashed: false, dotted: false, pointed: false }
    }
}

/// The colour of a series that has not been given one: transparent black.
pub open spec fn transparent() -> Color32 {
    color_rgba(0, 0, 0, 0)
}

impl Default for PlotData {
    /// A series without a name or points, transparent, drawn as a solid line.
    fn default() -> (s: PlotData)
        ensures
            s@ == PlotDataView::plain(Seq::empty(), Seq::empty(), transparent()),
    {
        PlotData {
            name: String::new(),
            points: Vec::new(),
            color: color_from_rgba(0, 0, 0, 0),
            dashed: false,
            dotted: false,
            pointed: false,
        }
    }
}

/// The values `ys` plotted against their positions: point `i` is `(i, ys[i])`, the
/// position given as the nearest binary64 value.
pub open spec fn indexed_points(ys: Seq<u64>) -> Seq<[u64; 2]> {
    Seq::new(ys.len(), |i: int| [binary64_of_nat(i as nat) as u64, ys[i]])
}

/// `xs` and `ys` paired element by element, as far as the shorter of the two reaches.
pub open spec fn zipped_points(xs: Seq<u64>, ys: Seq<u64>) -> Seq<[u64; 2]> {
    Seq::new(
        if xs.len() <= ys.len() {
            xs.len()
        } else {
            ys.len()
        },
        |i: int| [xs[i], ys[i]],
    )
}

/// Pairs every value with its position.
pub fn enumerate(ys: &[u64]) -> (points: Vec<[u64; 2]>)
    ensures
        points@ == indexed_points(ys@),
{
    let mut points: Vec<[u64; 2]> = Vec::new();
    let n = ys.len();
    let mut i: usize = 0;
    while i < n
        invariant
            n == ys@.len(),
            i <= n,
            points@ == indexed_points(ys@).take(i as int),
        decreases n - i,
    {
        let x = index_to_bits(i);
        points.push([x, ys[i]]);
        i = i + 1;
        assert(points@ =~= indexed_points(ys@).take(i as int));
    }
    assert(points@ =~= indexed_points(ys@));
    points
}

/// Pairs `xs` with `ys`, stopping where the shorter one ends.
pub fn zip(xs: &[u64], ys: &[u64]) -> (points: Vec<[u64; 2]>)
    ensures
        points@ == zipped_points(xs@, ys@),
{
    let mut points: Vec<[u64; 2]> = Vec::new();
    let n = if xs.len() <= ys.len() {
        xs.len()
    } else {
        ys.len()
    };
    let mut i: usize = 0;
    while i < n
        invariant
            n == zipped_points(xs@, ys@).len(),
            n <= xs@.len(),
            n <= ys@.len(),
            i <= n,
            points@ == zipped_points(xs@, ys@).take(i as int),
        decreases n - i,
    {
        points.push([xs[i], ys[i]]);
        i = i + 1;
        assert(points@ =~= zipped_points(xs@, ys@).take(i as int));
    }
    assert(points@ =~= zipped_points(xs@, ys@));
    points
}

} // verus!
