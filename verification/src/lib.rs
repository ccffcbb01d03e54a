//! A verified core for a Whitted-style ray tracer over axis-aligned cubes:
//! saturating 8-bit colors with hex packing, nearest-neighbor textures,
//! a row-major pixel buffer, and the lattice layout of the rendered diorama.
//!
//! The floating-point geometry (camera, intersection, shading) lives in the
//! surrounding application; everything here is integer logic with contracts.

pub mod color;
pub mod diorama;
pub mod framebuffer;
pub mod shading;
pub mod texture;
