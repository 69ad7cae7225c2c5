//! The magic values of the renderer.
//!
//! Numbers that the service handles as 32-bit floats are written here as
//! their IEEE-754 bit patterns, the form in which they reach the GPU.

use crate::color::Color;
use vstd::prelude::*;

pub mod rendering_flags;

verus! {

/// Width of the image when the request names none.
pub const DEFAULT_WIDTH: u32 = 1920;

/// Height of the image when the request names none.
pub const DEFAULT_HEIGHT: u32 = 1080;

/// Chunk size of the staging belt through which uploads travel.
pub const STAGING_BELT_SIZE: u64 = 2048;

/// The most colors a request may carry, and the capacity of the color
/// storage buffer.
pub const MAX_COLORS: u64 = 1024;

/// Iteration bound when the request names none.
pub const DEFAULT_MAX_ITER: u32 = 1000;

/// Number of colored stripes when the request names none.
pub const DEFAULT_NUM_COLORS: u32 = 200;

/// Antialias sample count when the request names none.
pub const DEFAULT_MSAA: u8 = 1;

/// Zoom when the request names none: the bits of `1.0`.
pub const DEFAULT_ZOOM: u32 = 0x3F80_0000;

/// Horizontal center when the request names none: the bits of `-0.75`.
pub const DEFAULT_POSITION_X: u32 = 0xBF40_0000;

/// Vertical center when the request names none: the bits of `0.0`.
pub const DEFAULT_POSITION_Y: u32 = 0x0000_0000;

/// Bytes of one pixel of the render target (8-bit RGBA).
pub const BYTES_PER_PIXEL: u32 = 4;

/// Every row of a buffer that a texture is copied into starts at a multiple
/// of this many bytes.
pub const ROW_ALIGNMENT: u32 = 256;

/// Bytes of one packed 32-bit value.
pub const WORD_SIZE: u64 = 4;

/// Number of 32-bit values of one uniform record.
pub const UNIFORM_WORDS: u64 = 8;

/// Size in bytes of the uniform buffer of a pipeline: one uniform record,
/// `UNIFORM_WORDS` values of `WORD_SIZE` bytes.
pub const INFO_BUFFER_SIZE: u64 = 32;

/// Size in bytes of the color storage buffer of a pipeline: four 32-bit
/// channels for each of `MAX_COLORS` colors.
pub const STORAGE_BUFFER_SIZE: u64 = 16384;

/// Vertices of the full-screen quad: two triangles, no vertex buffer.
pub const QUAD_VERTICES: u32 = 6;

/// The color the render target is cleared to: opaque black.
pub fn clear_color() -> (color: Color)
    ensures
        color == (Color { r: 0, g: 0, b: 0, a: 255 }),
{
    Color { r: 0, g: 0, b: 0, a: 255 }
}

/// The colors of a request that names none.
pub open spec fn default_palette() -> Seq<Color> {
    seq![
        Color { r: 85, g: 205, b: 252, a: 255 },
        Color { r: 247, g: 168, b: 184, a: 255 },
        Color { r: 255, g: 255, b: 255, a: 255 },
        Color { r: 247, g: 168, b: 184, a: 255 },
        Color { r: 85, g: 205, b: 252, a: 255 },
    ]
}

/// Default colors for the fractal: light blue, pink, white, pink, light blue.
pub fn default_colors() -> (colors: Vec<Color>)
    ensures
        colors@ == default_palette(),
{
    let mut colors: Vec<Color> = Vec::new();
    colors.push(Color { r: 85, g: 205, b: 252, a: 255 });
    colors.push(Color { r: 247, g: 168, b: 184, a: 255 });
    colors.push(Color { r: 255, g: 255, b: 255, a: 255 });
    colors.push(Color { r: 247, g: 168, b: 184, a: 255 });
    colors.push(Color { r: 85, g: 205, b: 252, a: 255 });
    colors
}

} // verus!
