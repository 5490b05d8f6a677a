//! A small software 3D renderer with a verified core.
//!
//! The renderer projects triangles from world space through a camera into
//! screen space and rasterizes them into a CPU-owned pixel buffer. All
//! geometry is carried in signed 64-bit fixed-point coordinates with 16
//! fractional bits, so every step of the pipeline — view/projection matrix
//! composition, perspective projection, edge-function rasterization and
//! bounds-checked pixel writes — is exact integer arithmetic with a full
//! functional specification.

pub mod color;
pub mod fx;
pub mod frame;
pub mod raster;
pub mod geom;
pub mod scene;
pub mod laws;
