//! Layout and annotation engine for stacked-track log plots: a depth axis on
//! the left and independently scaled data channels to its right, all carved
//! from one canvas rectangle.
//!
//! The library owns the geometry: rectangle partitioning, the mapping between
//! logical value domains and pixel spans, tick density classification, legend
//! packing, and the draw operations each renderer emits. Rasterization, font
//! metrics and the axis key-point generator are external collaborators: the
//! caller hands their results in as plain values and carries the emitted draw
//! operations to a backend.

use vstd::prelude::*;

pub mod area;
pub mod builder;
pub mod channel_context;
pub mod coord;
pub mod draw_ops;
pub mod format;
pub mod log_plot_context;
pub mod log_plot_style;
pub mod mesh;
pub mod plot_legend;
pub mod series;
pub mod ticks;

verus! {

/// Largest pixel coordinate the layout accepts on either axis.
pub const MAX_PIXEL: i64 = 0x8000_0000;

/// The recoverable failures of the layout engine.
#[derive(Clone, Copy, Debug, PartialEq, Eq, Structural)]
pub enum PlotError {
    /// A margin or split produced a degenerate (zero-or-negative) rectangle.
    Layout,
    /// A logical domain of zero or negative width was bound to a pixel span.
    Domain,
    /// Legend content is taller than its allotted rectangle.
    LegendOverflow,
    /// A style object was drawn a second time after being consumed.
    ReentrantConfiguration,
}

} // verus!
