//! Core of a small path tracer: the depth-bounded bounce loop, nearest-hit
//! selection, raster-scan pixel enumeration and the plain-text pixel-grid
//! output format.

pub mod path;
pub mod ppm;
pub mod raster;
pub mod resolve;
