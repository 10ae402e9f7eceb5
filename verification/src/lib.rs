//! Verified core of a Lissajous-style curve visualizer.
//!
//! The library computes, in fixed-point arithmetic, everything a frame needs
//! before it is handed to a rendering backend: it samples a parametric
//! sum-of-sines curve into a point sequence, turns that sequence into a smooth
//! quadratic-interpolation path, and computes the scale-to-fit transform that
//! centers a fixed logical canvas inside an arbitrarily sized output surface.
//! Windowing, the control surface and the actual stroking of the path are an
//! unverified shell around this crate.

pub mod canvas;
pub mod fixed;
pub mod frame;
pub mod params;
pub mod path;
pub mod sampler;
pub mod trig;
pub mod viewport;
