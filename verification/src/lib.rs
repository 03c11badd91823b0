//! A minimal ray-casting renderer core: a movable pinhole camera shoots one
//! ray per pixel at an infinite ground plane (checkerboard or grid pattern)
//! and fills a row-major pixel buffer, band by band.
//!
//! All geometry is carried in fixed-point micro-units (one unit equals
//! 1/1,000,000 of a world unit), so every decision the renderer makes is
//! exact integer arithmetic.

pub mod color;
pub mod fixed;
pub mod vec3;
pub mod pattern;
pub mod shade;
pub mod raygen;
pub mod scheduler;
pub mod engine;
