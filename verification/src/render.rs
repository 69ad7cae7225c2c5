//! Planning one render: the sizes of the per-request GPU resources and the
//! order of the commands that use them.
//!
//! The plan holds plain numbers. Whoever owns the device carries it out:
//! it creates the target and the read-back buffer with the sizes given here
//! and issues the commands in the order given here.

use crate::color::Color;
use crate::grimoire::{
    clear_color, BYTES_PER_PIXEL, QUAD_VERTICES, ROW_ALIGNMENT, UNIFORM_WORDS, WORD_SIZE,
};
use vstd::prelude::*;

verus! {

/// Why a render could not be carried out.
#[derive(Debug, Clone, Copy, PartialEq, Eq, Structural)]
pub enum RenderError {
    /// The size of a buffer cannot be represented: a payload is empty, or a
    /// byte count does not fit the integer that carries it.
    SizeOverflow,
    /// There is no compiled pipeline for the kind that was asked for.
    PipelineUnavailable,
}

/// The least multiple of `alignment` that is not below `n`.
pub open spec fn align_up(n: int, alignment: int) -> int {
    if n % alignment == 0 {
        n
    } else {
        n + (alignment - n % alignment)
    }
}

/// The row pitch of an image `width` pixels wide: the bytes of one row,
/// padded up to the row alignment.
pub open spec fn row_pitch(width: u32) -> int {
    align_up(BYTES_PER_PIXEL * width, ROW_ALIGNMENT as int)
}

/// The bytes that `values` 32-bit values occupy.
pub open spec fn payload_bytes(values: int) -> int {
    WORD_SIZE * values
}

/// `wgpu::TextureFormat::block_size` of `Rgba8Unorm`, the format of the
/// render target, asked without an aspect: the bytes of one pixel. The
/// format is a color format of four 8-bit channels, for which the function
/// gives 4 whatever the aspect.
#[verifier::external_body]
fn target_block_size() -> (size: Option<u32>)
    ensures
        size == Some(BYTES_PER_PIXEL),
{
    wgpu::TextureFormat::Rgba8Unorm.block_size(None)
}

/// The number of bytes of each row of the read-back buffer for an image
/// `width` pixels wide. Fails where the pitch does not fit 32 bits.
pub fn padded_bytes_per_row(width: u32) -> (pitch: Result<u32, RenderError>)
    ensures
        match pitch {
            Ok(p) => p == row_pitch(width),
            Err(e) => e == RenderError::SizeOverflow && row_pitch(width) > u32::MAX,
        },
{
    let block: u32 = match target_block_size() {
        Some(block) => block,
        None => {
            return Err(RenderError::SizeOverflow);
        },
    };
    assert(width * block == 4 * width) by (nonlinear_arith)
        requires
            block == 4,
    ;
    let unpadded: u64 = width as u64 * block as u64;
    let over: u64 = unpadded % (ROW_ALIGNMENT as u64);
    let padded: u64 = if over == 0 {
        unpadded
    } else {
        unpadded + (ROW_ALIGNMENT as u64 - over)
    };
    if padded > u32::MAX as u64 {
        Err(RenderError::SizeOverflow)
    } else {
        Ok(padded as u32)
    }
}

/// The size in bytes of the read-back buffer: `height` rows of
/// `bytes_per_row` bytes.
pub fn readback_size(bytes_per_row: u32, height: u32) -> (size: u64)
    ensures
        size == bytes_per_row * height,
{
    assert(bytes_per_row * height <= u32::MAX * u32::MAX) by (nonlinear_arith)
        requires
            bytes_per_row <= u32::MAX,
            height <= u32::MAX,
    ;
    bytes_per_row as u64 * height as u64
}

/// The size in bytes of an upload of `values` 32-bit values. An upload has
/// at least one byte: an empty payload has no size, nor has one whose byte
/// count does not fit 64 bits.
pub fn payload_size(values: usize) -> (size: Result<u64, RenderError>)
    ensures
        match size {
            Ok(bytes) => bytes == payload_bytes(values as int) && bytes > 0,
            Err(e) => e == RenderError::SizeOverflow && (values == 0 || payload_bytes(
                values as int,
            ) > u64::MAX),
        },
{
    if values == 0 {
        return Err(RenderError::SizeOverflow);
    }
    match (values as u64).checked_mul(WORD_SIZE) {
        Some(bytes) => Ok(bytes),
        None => Err(RenderError::SizeOverflow),
    }
}

/// One step of a render. The steps of a request are issued in the order in
/// which `RenderPlan::commands` lists them.
#[derive(Debug, Clone, Copy, PartialEq, Eq, Structural)]
pub enum RenderCommand {
    /// Create the off-screen color target, 4 bytes per pixel.
    CreateTarget { width: u32, height: u32 },
    /// Create the buffer that the target is read back through.
    CreateReadback { size: u64 },
    /// Stage the uniform record for the uniform buffer of the pipeline.
    WriteUniforms { size: u64 },
    /// Stage the colors for the storage buffer of the pipeline.
    WriteColors { size: u64 },
    /// Begin the render pass, clearing the target.
    Clear { color: Color },
    /// Bind the pipeline's binding set at index 0.
    SetBindGroup,
    /// Select the pipeline of the kind.
    SetPipeline,
    /// Draw the full-screen quad and end the pass.
    Draw { vertices: u32, instances: u32 },
    /// Copy the target into the read-back buffer.
    CopyToBuffer { bytes_per_row: u32 },
    /// Flush the staged uploads and submit everything recorded so far as
    /// one unit.
    Submit,
    /// Destroy the target: read-back does not need it.
    ReleaseTarget,
    /// Map the read-back buffer for reading and wait until it is mapped.
    MapRead,
    /// Copy the mapped bytes into an owned buffer, then unmap.
    CopyOut { size: u64 },
}

/// The sizes of everything one render creates and transfers.
#[derive(Debug, Clone, Copy, PartialEq, Eq, Structural)]
pub struct RenderPlan {
    pub width: u32,
    pub height: u32,
    /// Bytes of one row of the read-back buffer.
    pub bytes_per_row: u32,
    /// Bytes of the read-back buffer.
    pub buffer_size: u64,
    /// Bytes of the uniform upload.
    pub uniform_size: u64,
    /// Bytes of the color upload.
    pub color_size: u64,
}

impl RenderPlan {
    /// The plan for an image of `width` by `height` pixels whose color
    /// payload has `color_values` 32-bit values.
    pub open spec fn of(color_values: int, width: u32, height: u32) -> RenderPlan {
        RenderPlan {
            width,
            height,
            bytes_per_row: row_pitch(width) as u32,
            buffer_size: (row_pitch(width) * height) as u64,
            uniform_size: payload_bytes(UNIFORM_WORDS as int) as u64,
            color_size: payload_bytes(color_values) as u64,
        }
    }

    /// Whether a plan can be made: the row pitch fits 32 bits, and the
    /// color payload is not empty and its size fits 64 bits.
    pub open spec fn possible(color_values: int, width: u32) -> bool {
        &&& row_pitch(width) <= u32::MAX
        &&& 0 < color_values
        &&& payload_bytes(color_values) <= u64::MAX
    }

    /// The commands of the plan, in the order in which they are issued.
    pub open spec fn steps(self) -> Seq<RenderCommand> {
        seq![
            RenderCommand::CreateTarget { width: self.width, height: self.height },
            RenderCommand::CreateReadback { size: self.buffer_size },
            RenderCommand::WriteUniforms { size: self.uniform_size },
            RenderCommand::WriteColors { size: self.color_size },
            RenderCommand::Clear { color: Color { r: 0, g: 0, b: 0, a: 255 } },
            RenderCommand::SetBindGroup,
            RenderCommand::SetPipeline,
            RenderCommand::Draw { vertices: QUAD_VERTICES, instances: 1 },
            RenderCommand::CopyToBuffer { bytes_per_row: self.bytes_per_row },
            RenderCommand::Submit,
            RenderCommand::ReleaseTarget,
            RenderCommand::MapRead,
            RenderCommand::CopyOut { size: self.buffer_size },
        ]
    }

    /// Plans the render of an image of `width` by `height` pixels with a
    /// color payload of `color_values` 32-bit values.
    pub fn new(color_values: usize, width: u32, height: u32) -> (plan: Result<
        RenderPlan,
        RenderError,
    >)
        ensures
            match plan {
                Ok(p) => Self::possible(color_values as int, width) && p == Self::of(
                    color_values as int,
                    width,
                    height,
                ),
                Err(e) => e == RenderError::SizeOverflow && !Self::possible(
                    color_values as int,
                    width,
                ),
            },
    {
        let bytes_per_row = match padded_bytes_per_row(width) {
            Ok(p) => p,
            Err(e) => {
                return Err(e);
            },
        };
        let color_size = match payload_size(color_values) {
            Ok(s) => s,
            Err(e) => {
                return Err(e);
            },
        };
        Ok(
            RenderPlan {
                width,
                height,
                bytes_per_row,
                buffer_size: readback_size(bytes_per_row, height),
                uniform_size: WORD_SIZE * UNIFORM_WORDS,
                color_size,
            },
        )
    }

    /// The commands of the render, in the order in which they must be
    /// issued: both uploads, the clear, the draw, the copy, the submission,
    /// and only then the read-back.
    pub fn commands(&self) -> (commands: Vec<RenderCommand>)
        ensures
            commands@ == self.steps(),
    {
        let mut commands: Vec<RenderCommand> = Vec::new();
        commands.push(RenderCommand::CreateTarget { width: self.width, height: self.height });
        commands.push(RenderCommand::CreateReadback { size: self.buffer_size });
        commands.push(RenderCommand::WriteUniforms { size: self.uniform_size });
        commands.push(RenderCommand::WriteColors { size: self.color_size });
        commands.push(RenderCommand::Clear { color: clear_color() });
        commands.push(RenderCommand::SetBindGroup);
        commands.push(RenderCommand::SetPipeline);
        commands.push(RenderCommand::Draw { vertices: QUAD_VERTICES, instances: 1 });
        commands.push(RenderCommand::CopyToBuffer { bytes_per_row: self.bytes_per_row });
        commands.push(RenderCommand::Submit);
        commands.push(RenderCommand::ReleaseTarget);
        commands.push(RenderCommand::MapRead);
        commands.push(RenderCommand::CopyOut { size: self.buffer_size });
        commands
    }
}

/// The row pitch is a multiple of the alignment, holds a whole row, and
/// pads by less than one alignment unit; a row that is aligned already is
/// not padded.
pub proof fn lemma_row_pitch(width: u32)
    ensures
        row_pitch(width) % (ROW_ALIGNMENT as int) == 0,
        BYTES_PER_PIXEL * width <= row_pitch(width) < BYTES_PER_PIXEL * width + ROW_ALIGNMENT,
        (BYTES_PER_PIXEL * width) % (ROW_ALIGNMENT as int) == 0 ==> row_pitch(width)
            == BYTES_PER_PIXEL * width,
{
}

/// A row of fewer than 64 pixels is always padded to one alignment unit:
/// the read-back buffer is then larger than the image.
pub proof fn lemma_narrow_rows_are_padded(width: u32, height: u32)
    requires
        0 < width < 64,
        0 < height,
    ensures
        row_pitch(width) == ROW_ALIGNMENT,
        row_pitch(width) * height > BYTES_PER_PIXEL * width * height,
{
    assert(256 * height > (4 * width) * height) by (nonlinear_arith)
        requires
            0 < width < 64,
            0 < height,
    ;
}

} // verus!
