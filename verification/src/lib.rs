//! A fluent builder for two-dimensional line charts, verified with Verus.
//!
//! A [`MiniPlot`] collects series of points, their styling and the chart's options.
//! [`MiniPlot::show`] turns it into a [`Chart`], the description from which a window
//! or any other surface can draw. Coordinates are binary64 values, carried as their
//! bit patterns.
pub mod binary64;
pub mod chart;
pub mod conversion;
pub mod lemmas;
pub mod matrix;
pub mod naming;
pub mod palette;
pub mod plot;
pub mod series;

pub use chart::{Chart, LineStyle, Trace};
pub use conversion::AsSliceF64;
pub use egui::Color32;
pub use matrix::{DynMatrix, DynVector};
pub use plot::MiniPlot;
pub use series::PlotData;
