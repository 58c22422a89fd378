//! Render-state and pipeline manager for a single 2-D line plot.
//!
//! The library owns the logic of the plot renderer: the sample data model,
//! the coordinate-normalization step, the registry that maps render styles
//! to GPU pipeline handles, and the per-frame protocol that decides whether
//! to quit, which geometry to install, and what the draw call must look
//! like. Everything the GPU and the windowing system do — context creation,
//! event delivery, shader compilation, buffer uploads, the draw itself —
//! happens outside the library, which only hands out plain handles and
//! counts and takes plain values back.
//!
//! Coordinates are carried as the bit patterns of IEEE-754 single-precision
//! numbers (`f32::to_bits`). The library never performs floating-point
//! arithmetic itself: callers supply the per-sample arithmetic kernels and
//! axis extents, and the library pins down everything structural about how
//! they are applied and stored.

pub mod data;
pub mod registry;
pub mod state;

pub use data::{PathUpdate, PlotData, default_plot_data, normalize_update};
pub use registry::{PipelineEntry, PipelineRegistry, ProgramKey};
pub use state::{
    ContextRequest, FramePlan, PlotEvent, PlotRenderState, contains_quit, context_request, init,
    render,
};
