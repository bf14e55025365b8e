//! Atlas and draw bookkeeping for rendering `glyph_brush` text through `luminance`.
//!
//! The library decides how the glyph atlas grows when the layout engine reports
//! that it overflowed, which region of the atlas an upload touches, when a
//! processing cycle uploads, keeps or resizes, and what a draw submits.
pub mod atlas;
pub mod cycle;
pub mod pipeline;
pub mod region;

pub use atlas::{atlas_resize_target, blank_texels, upload_region, ResizeDecision, MAX_TEXTURE_DIMENSION};
pub use cycle::{CycleStep, ProcessCycle, ProcessError, ProcessOutcome, MAX_RESIZES};
pub use pipeline::{DrawCall, PipelineState, Semantics, QUAD_VERTICES};
pub use region::Region;
