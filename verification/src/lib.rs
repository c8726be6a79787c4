//! A small 2D particle simulation: a world of bouncing balls updated in
//! parallel each tick, a software rasterizer that turns each ball into a
//! batch of pixels, and the bookkeeping half of a shader-pipeline wrapper.
//!
//! Coordinates are fixed-point: one pixel is `world::SCALE` units.

pub mod raster;
pub mod render_gl;
pub mod world;
