//! Renders lines of text onto a small fixed-size RGB pixel matrix using
//! bitmap fonts, with per-line color and independent horizontal scrolling.
//!
//! The crate owns the animation logic: slicing a font sheet into glyph
//! cells, composing a line of text into an RGB pixmap, the per-line scroll
//! state machine, and the minimum-deadline scheduler that decides when each
//! line next advances. Reading font images from disk, driving the physical
//! matrix, and reading the wall clock are left to the embedding program,
//! which hands this crate plain values: intensity grids and timestamps in
//! microseconds.

use vstd::prelude::*;

pub mod bitmap;
pub mod board;
pub mod font;
pub mod frame;
pub mod line;
pub mod pixmap;
pub mod scroll;

verus! {

/// Width of the pixel matrix, in pixels.
pub const SCREEN_W: usize = 16;

/// Height of the pixel matrix, in pixels.
pub const SCREEN_H: usize = 16;

} // verus!
