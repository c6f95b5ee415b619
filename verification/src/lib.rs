//! Windowed raster buffer I/O: the typed, checked core of a raster access layer.
//!
//! The native raster backend is reached through handles and C-style calls that
//! only the embedding program can make. This library decides everything around
//! those calls: which arguments a call is made with, whether they can be
//! expressed natively at all, and what a status code or a null handle coming
//! back means for the caller.

pub mod array;
pub mod buffer;
pub mod dataset;
pub mod driver;
pub mod errors;
pub mod metadata;
pub mod native;
pub mod pixel;
pub mod rasterband;
