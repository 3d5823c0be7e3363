//! Escape-time engine for Mandelbrot point clouds.
//!
//! The library holds the integer side of the engine: checking a request,
//! walking the pixel rectangle in row-major order, deciding after each orbit
//! step whether a pixel escaped, and turning the outcome into a palette color
//! and a point record. The orbit arithmetic itself is done by the caller, one
//! radius test at a time, and handed in as a `bool`.

pub mod color;
pub mod escape;
pub mod params;
pub mod cloud;
