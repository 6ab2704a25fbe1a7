//! Turns decoded video frames into stylized glyph-art frames: each source
//! pixel becomes a cell showing a ramp glyph chosen by the pixel's
//! luminance, drawn in the pixel's color; a batch of frames is processed
//! with per-frame failure isolation.

pub mod batch;
pub mod imgio;
pub mod pipeline;
pub mod ramp;
pub mod render;
