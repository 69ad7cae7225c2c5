//! Flags for changing how the fractal is rendered. Each is one high bit of
//! the flags word; the low bits of that word carry the antialias sample count.

use vstd::prelude::*;

verus! {

/// Switches to the smooth iteration count
pub const SMOOTH: u32 = 0x4000_0000;

/// Renders a debug grid over the fractal, for easier definition of the position
pub const DEBUG: u32 = 0x8000_0000;

} // verus!
