//! Capture-engine logic for on-demand screenshots of a window or of the
//! primary display: target resolution, sub-window offsets, region validation
//! and row-pitch-aware pixel extraction from a mapped frame.

pub mod bitmap;
pub mod cli;
pub mod display_info;
pub mod error;
pub mod frame;
pub mod recognition;
pub mod resolve;
pub mod session;
pub mod text;
pub mod window_info;
