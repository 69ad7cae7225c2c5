//! The uniform record: the fixed-size projection of the render parameters
//! that the fragment shader reads.
//!
//! Values that the shader reads as 32-bit floats are held as their bit
//! patterns. The vertical center is packed with its sign flipped: a request
//! counts `y` upwards, as on paper, the shader counts it downwards, as on a
//! screen. Flipping the sign of an IEEE-754 number is flipping its top bit.

use crate::grimoire::rendering_flags::{DEBUG, SMOOTH};
use crate::grimoire::{
    DEFAULT_MAX_ITER, DEFAULT_MSAA, DEFAULT_NUM_COLORS, DEFAULT_POSITION_X, DEFAULT_POSITION_Y,
    DEFAULT_ZOOM,
};
use crate::request::{Parameters, RenderParameters};
use vstd::prelude::*;

verus! {

/// The sign bit of a 32-bit IEEE-754 number.
pub const SIGN_BIT: u32 = 0x8000_0000;

/// The part of the flags word that carries the antialias sample count.
pub const MSAA_MASK: u32 = 0x0000_00FF;

/// The data that the fragment shader reads from the uniform buffer.
#[derive(Clone, Copy, Debug)]
pub struct ShaderDataUniforms {
    ///Unscaled position of the center of the image, as the bits of two floats
    pub position: [u32; 2],
    ///Aspect ratio of the image (height/width), as the bits of a float
    pub aspect: u32,
    ///Scale of the coordinates, as the bits of a float
    pub zoom: u32,
    ///Length of the color storage buffer
    pub arr_len: u32,
    ///Maximum number of iterations of the fractal
    pub max_iter: u32,
    ///Number of colored stripes
    pub num_colors: u32,
    ///Low 8 bits for msaa, the rest are flags from the grimoire
    pub flags: u32,
}

/// The bits of the number of opposite sign.
pub open spec fn negated(bits: u32) -> u32 {
    bits ^ SIGN_BIT
}

/// The flags word: the sample count in the low bits, one high bit for each
/// feature that is switched on.
pub open spec fn flags_word(msaa: u8, smooth: bool, debug: bool) -> u32 {
    (msaa as u32) | (if smooth {
        SMOOTH
    } else {
        0u32
    }) | (if debug {
        DEBUG
    } else {
        0u32
    })
}

/// The eight values of a uniform record, in the order of the shader's
/// declaration.
pub open spec fn packed(
    position_x: u32,
    position_y: u32,
    aspect: u32,
    zoom: u32,
    arr_len: u32,
    max_iter: u32,
    num_colors: u32,
    flags: u32,
) -> Seq<u32> {
    seq![position_x, position_y, aspect, zoom, arr_len, max_iter, num_colors, flags]
}

impl ShaderDataUniforms {
    /// The record as the eight values that are uploaded.
    pub open spec fn words(self) -> Seq<u32> {
        packed(
            self.position@[0],
            self.position@[1],
            self.aspect,
            self.zoom,
            self.arr_len,
            self.max_iter,
            self.num_colors,
            self.flags,
        )
    }

    /// The record that `parameters` and the aspect ratio `aspect` are packed
    /// into.
    pub open spec fn encoding(parameters: Parameters, aspect: u32) -> Seq<u32> {
        packed(
            parameters.position_x,
            negated(parameters.position_y),
            aspect,
            parameters.zoom,
            parameters.colors.len() as u32,
            parameters.max_iterations,
            parameters.num_colors,
            flags_word(parameters.msaa, parameters.smooth, parameters.debug),
        )
    }

    /// Packs render parameters. `aspect` is the bits of the height of the
    /// image divided by its width; the parameters have been validated.
    pub fn encode(parameters: &RenderParameters, aspect: u32) -> (uniforms: ShaderDataUniforms)
        requires
            parameters@.well_formed(),
        ensures
            uniforms.words() == Self::encoding(parameters@, aspect),
            uniforms.aspect == aspect,
            uniforms.arr_len == parameters@.colors.len(),
    {
        let flags: u32 = (parameters.msaa as u32) | (if parameters.smooth {
            SMOOTH
        } else {
            0u32
        }) | (if parameters.debug {
            DEBUG
        } else {
            0u32
        });
        ShaderDataUniforms {
            position: [parameters.position_x, parameters.position_y ^ SIGN_BIT],
            aspect,
            zoom: parameters.zoom,
            arr_len: parameters.colors.len() as u32,
            max_iter: parameters.max_iterations,
            num_colors: parameters.num_colors,
            flags,
        }
    }

    /// The eight uploaded values: the position, the aspect ratio, the zoom,
    /// the number of colors in the storage buffer, the iteration bound, the
    /// number of stripes, the flags.
    pub fn raw(&self) -> (raw: [u32; 8])
        ensures
            raw@ == self.words(),
    {
        let raw = [
            self.position[0],
            self.position[1],
            self.aspect,
            self.zoom,
            self.arr_len,
            self.max_iter,
            self.num_colors,
            self.flags,
        ];
        raw
    }

    /// The bytes that are written to the uniform buffer: the eight values in
    /// the byte order of the machine, 32 bytes.
    pub fn bytes(&self) -> (bytes: Vec<u8>)
        ensures
            bytes@.len() == 32,
            bytes@ == bytes_le(self.words()) || bytes@ == bytes_be(self.words()),
    {
        let raw = self.raw();
        cast_words(&raw)
    }
}

impl Default for ShaderDataUniforms {
    fn default() -> (uniforms: ShaderDataUniforms)
        ensures
            uniforms.words() == packed(
                DEFAULT_POSITION_X,
                DEFAULT_POSITION_Y,
                0,
                DEFAULT_ZOOM,
                0,
                DEFAULT_MAX_ITER,
                DEFAULT_NUM_COLORS,
                DEFAULT_MSAA as u32,
            ),
    {
        Self {
            aspect: 0,
            arr_len: 0,
            position: [DEFAULT_POSITION_X, DEFAULT_POSITION_Y],
            zoom: DEFAULT_ZOOM,
            max_iter: DEFAULT_MAX_ITER,
            num_colors: DEFAULT_NUM_COLORS,
            flags: 1,
        }
    }
}

/// Byte `k` of `word`, counted from the least significant.
pub open spec fn byte_of(word: u32, k: int) -> u8 {
    if k == 0 {
        (word & 0xFF) as u8
    } else if k == 1 {
        ((word >> 8) & 0xFF) as u8
    } else if k == 2 {
        ((word >> 16) & 0xFF) as u8
    } else {
        ((word >> 24) & 0xFF) as u8
    }
}

/// The bytes of `words`, each word least significant byte first.
pub open spec fn bytes_le(words: Seq<u32>) -> Seq<u8> {
    Seq::new(4 * words.len(), |j: int| byte_of(words[j / 4], j % 4))
}

/// The bytes of `words`, each word most significant byte first.
pub open spec fn bytes_be(words: Seq<u32>) -> Seq<u8> {
    Seq::new(4 * words.len(), |j: int| byte_of(words[j / 4], 3 - j % 4))
}

/// `bytemuck::cast_slice` from `u32` to `u8`: reinterprets the words as the
/// bytes they occupy in memory. The cast cannot fail for this pair of types,
/// as a byte has no alignment and four bytes make a word. The result is
/// four bytes per word in the order of the words; inside a word the bytes
/// stand in the byte order of the machine, which is one of the two.
#[verifier::external_body]
fn cast_words(words: &[u32; 8]) -> (bytes: Vec<u8>)
    ensures
        bytes@ == bytes_le(words@) || bytes@ == bytes_be(words@),
{
    bytemuck::cast_slice::<u32, u8>(words).to_vec()
}

/// The flags word gives back what went into it: the sample count is its low
/// 8 bits, each feature is one bit above them, and no other bit is set.
pub proof fn lemma_flags_word_decodes(msaa: u8, smooth: bool, debug: bool)
    ensures
        flags_word(msaa, smooth, debug) & MSAA_MASK == msaa,
        (flags_word(msaa, smooth, debug) & SMOOTH != 0) == smooth,
        (flags_word(msaa, smooth, debug) & DEBUG != 0) == debug,
        flags_word(msaa, smooth, debug) & !(MSAA_MASK | SMOOTH | DEBUG) == 0,
{
    let m = msaa as u32;
    let s: u32 = if smooth {
        SMOOTH
    } else {
        0u32
    };
    let d: u32 = if debug {
        DEBUG
    } else {
        0u32
    };
    assert((m | s | d) & 0xFFu32 == m && ((m | s | d) & 0x4000_0000u32 != 0) == (s != 0) && ((m | s
        | d) & 0x8000_0000u32 != 0) == (d != 0) && (m | s | d) & !(0xFFu32 | 0x4000_0000u32
        | 0x8000_0000u32) == 0) by (bit_vector)
        requires
            m < 256,
            s == 0 || s == 0x4000_0000u32,
            d == 0 || d == 0x8000_0000u32,
    ;
}

/// Flipping the sign twice gives the number back, and flipping it keeps a
/// finite number finite.
pub proof fn lemma_negated_twice(bits: u32)
    ensures
        negated(negated(bits)) == bits,
        negated(bits) != bits,
        negated(bits) & 0x7F80_0000 == bits & 0x7F80_0000,
{
    assert((bits ^ 0x8000_0000u32) ^ 0x8000_0000u32 == bits && (bits ^ 0x8000_0000u32) != bits && (
    bits ^ 0x8000_0000u32) & 0x7F80_0000u32 == bits & 0x7F80_0000u32) by (bit_vector);
}

} // verus!
