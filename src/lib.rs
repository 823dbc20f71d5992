//! Path-tracing core: the closed set of surface materials and their scatter
//! decisions, the bounded bounce loop of the shading recursion, and the
//! raster that finished pixels are written into.
//!
//! Arithmetic on light and geometry is done by the caller in floating point;
//! this crate holds the decisions that arithmetic feeds and proves them.

pub mod materials;
pub mod shading;
pub mod raster;
pub mod scene;
