//! A drawing backend for charts that records what it is asked to draw as
//! commands of a retained-mode canvas.
//!
//! The chart side speaks in integer pixel coordinates, byte colour channels and
//! integer stroke widths; the canvas side speaks in single-precision numbers.
//! [`CustomPlotFrame`] turns each primitive of the chart side into one fill,
//! stroke or text command on a borrowed [`canvas::Frame`]. What each command
//! holds is stated in the contract of the primitive and proved.
//!
//! - [`single`]: integers as single-precision numbers, with the error of the
//!   conversion.
//! - [`color`]: colours of the chart side and of the canvas.
//! - [`canvas`]: points, paths, strokes, texts, and the frame that records
//!   them.
//! - [`backend`]: the adapter and its primitives.
//! - [`laws`]: what holds of the adapter as a whole.

pub mod backend;
pub mod canvas;
pub mod color;
pub mod laws;
pub mod single;

pub use backend::{
    BackendCoord, BackendStyle, BackendTextStyle, CustomPlotFrame, PlotErr, Plottable,
};
pub use color::BackendColor;
