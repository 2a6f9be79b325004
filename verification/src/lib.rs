//! A software rasterizer for a procedurally shaded solar system.
//!
//! The pipeline works on fixed-point screen coordinates: a vertex transform
//! stage, an edge-function triangle rasterizer with barycentric
//! interpolation, a per-pixel procedural shading stage, a depth-tested
//! two-buffer (color + emissive) framebuffer, and a separable-kernel bloom
//! post-process.

pub mod bloom;
pub mod color;
pub mod framebuffer;
pub mod fx;
pub mod geometry;
pub mod pipeline;
pub mod raster;
pub mod shading;
pub mod transform;
