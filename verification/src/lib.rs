//! Verified core of a procedural terrain mesh generator.
//!
//! The crate derives the vertex lattice of a terrain from its configuration,
//! lays out the triangle and line index buffers of the height-field mesh, and
//! rasterizes the colour ramp of a gradient into a preview image.

pub mod gradient;
pub mod mesh;
pub mod raster;
pub mod terrain;
pub mod topology;
pub mod wireframe;
