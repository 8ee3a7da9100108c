//! A simple canvas struct that acts as a two-dimensional array.
//!
//! The canvas stores all of its pixels in one contiguous row-major buffer:
//! the scan starts at the top-left corner and runs left to right, top to
//! bottom. [`Canvas`] offers indexed access to single pixels and whole-buffer
//! scans; the raw buffer itself is a public field for callers that prefer it.

pub mod canvas;
pub mod indexing;

pub use canvas::Canvas;
