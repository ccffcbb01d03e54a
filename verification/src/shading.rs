//! The two fixed quantities of the recursive shading engine that are plain
//! values: the background color and the ray recursion bound.
//!
//! The engine itself works on floating-point rays and lives in the
//! surrounding application; it returns the background color for every ray
//! whose depth exceeds the bound, and for every ray that hits nothing.

use vstd::prelude::*;

verus! {

use crate::color::Color;

/// A ray at a depth beyond this returns the background color at once, so a
/// primary ray spawns at most two generations of reflection or refraction
/// children.
pub const MAX_RAY_DEPTH: u32 = 1;

/// The dark-blue background returned for rays past the depth bound and for
/// rays that hit no primitive.
pub fn skybox_color() -> (c: Color)
    ensures
        c == (Color { r: 40u8, g: 24u8, b: 128u8 }),
{
    Color { r: 40, g: 24, b: 128 }
}

} // verus!
