//! The fixed logical canvas the curve is authored against.
//!
//! The curve lives on a virtual 1920 x 1080 surface regardless of the actual
//! window size; the viewport projector maps this surface onto the output.

use vstd::prelude::*;

verus! {

/// Width of the logical canvas in pixels.
pub const WORK_WIDTH: i32 = 1920;

/// Height of the logical canvas in pixels.
pub const WORK_HEIGHT: i32 = 1080;

/// Horizontal midpoint of the logical canvas, fixed-point.
pub const CENTER_X_FX: i64 = 960_000_000;

/// Vertical midpoint of the logical canvas, fixed-point.
pub const CENTER_Y_FX: i64 = 540_000_000;

} // verus!
