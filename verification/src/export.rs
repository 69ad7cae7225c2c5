//! From the read-back buffer to an image file: dropping the padding of the
//! rows, and encoding the pixels as PNG.
//!
//! A read-back buffer holds the rows of the image at a distance of one row
//! pitch from each other. The bytes between the end of a row and the start
//! of the next are padding and carry nothing.

use image::ImageBuffer;
use image::ImageError;
use image::ImageOutputFormat;
use image::Rgba;
use std::io::Cursor;
use crate::render::row_pitch;
use vstd::arithmetic::div_mod::lemma_fundamental_div_mod_converse;
use vstd::prelude::*;

verus! {

/// Bytes of one pixel: 8-bit red, green, blue and alpha.
pub const PIXEL: usize = 4;

/// Why pixels could not be turned into an image file.
#[derive(Debug, Clone, Copy, PartialEq, Eq, Structural)]
pub enum ExportError {
    /// The buffer cannot be read as the image: a row of the image is wider
    /// than a row of the buffer, the buffer holds more than `height` rows,
    /// or the image has more bytes than a vector can hold.
    Layout,
    /// The image has no pixels: its width or its height is zero.
    Empty,
    /// The encoder refused the image.
    Encoding,
}

/// An image as rows of pixels without padding, 4 bytes per pixel,
/// row-major.
#[derive(Debug)]
pub struct PixelGrid {
    width: u32,
    height: u32,
    data: Vec<u8>,
}

/// A pixel grid as a mathematical value.
pub struct Pixels {
    pub width: u32,
    pub height: u32,
    pub data: Seq<u8>,
}

impl View for PixelGrid {
    type V = Pixels;

    closed spec fn view(&self) -> Pixels {
        Pixels { width: self.width, height: self.height, data: self.data@ }
    }
}

/// The byte at position `j` of an image without padding whose rows have
/// `row_bytes` bytes, taken from the buffer `raw` whose rows start
/// `pitch` bytes apart. A pixel that the buffer does not hold whole is
/// black and transparent.
pub open spec fn sample(raw: Seq<u8>, pitch: int, row_bytes: int, j: int) -> u8 {
    let y = j / row_bytes;
    let k = j % row_bytes;
    if y * pitch + (k - k % 4) + 4 <= raw.len() {
        raw[y * pitch + k]
    } else {
        0u8
    }
}

/// The pixels of an image of `width` by `height` pixels, read from the
/// buffer `raw` whose rows start `pitch` bytes apart: the first `width`
/// pixels of each row, row after row.
pub open spec fn unpadded(raw: Seq<u8>, pitch: int, width: int, height: int) -> Seq<u8> {
    Seq::new((4 * width * height) as nat, |j: int| sample(raw, pitch, 4 * width, j))
}

/// `raw` holds the rows of `data`, an image of `width` by `height` pixels,
/// `pitch` bytes apart, with anything whatever in the padding.
pub open spec fn is_padded_layout(
    raw: Seq<u8>,
    pitch: int,
    width: int,
    height: int,
    data: Seq<u8>,
) -> bool {
    &&& 0 <= 4 * width <= pitch
    &&& 0 <= height
    &&& raw.len() == pitch * height
    &&& data.len() == 4 * width * height
    &&& forall|y: int, k: int|
        0 <= y < height && 0 <= k < 4 * width ==> #[trigger] row_byte(raw, pitch, y, k)
            == row_byte(data, 4 * width, y, k)
}

/// Byte `k` of row `y` of a buffer whose rows start `pitch` bytes apart.
pub open spec fn row_byte(buffer: Seq<u8>, pitch: int, y: int, k: int) -> u8 {
    buffer[y * pitch + k]
}

/// A buffer can be read as an image of `width` by `height` pixels with
/// rows `pitch` bytes apart: a row fits in the pitch, the buffer holds no
/// more than `height` rows, and a vector can hold the bytes of the image.
pub open spec fn readable(len: int, pitch: int, width: int, height: int) -> bool {
    &&& 4 * width <= pitch
    &&& len <= pitch * height
    &&& 4 * width * height <= usize::MAX
}

impl PixelGrid {
    #[verifier::type_invariant]
    spec fn well_formed(self) -> bool {
        self.data@.len() == 4 * self.width * self.height
    }

    /// A grid of `width` by `height` pixels over `data`, or `None` where
    /// `data` is not exactly 4 bytes for each pixel.
    pub fn new(width: u32, height: u32, data: Vec<u8>) -> (grid: Option<PixelGrid>)
        ensures
            grid is Some <==> data@.len() == 4 * width * height,
            grid matches Some(g) ==> g@ == (Pixels { width, height, data: data@ }),
    {
        assert(width * height <= u32::MAX * u32::MAX) by (nonlinear_arith)
            requires
                width <= u32::MAX,
                height <= u32::MAX,
        ;
        assert(4 * width * height == 4 * (width * height)) by (nonlinear_arith);
        let pixels: u64 = width as u64 * height as u64;
        let limit: usize = usize::MAX / 4;
        let len: usize = data.len();
        if pixels > limit as u64 {
            return None;
        }
        if len == 4 * (pixels as usize) {
            Some(PixelGrid { width, height, data })
        } else {
            None
        }
    }

    pub fn width(&self) -> (width: u32)
        ensures
            width == self@.width,
    {
        self.width
    }

    pub fn height(&self) -> (height: u32)
        ensures
            height == self@.height,
    {
        self.height
    }

    /// The bytes of the pixels: 4 for each pixel, row after row.
    pub fn data(&self) -> (data: &Vec<u8>)
        ensures
            data@ == self@.data,
            data@.len() == 4 * self@.width * self@.height,
    {
        proof {
            use_type_invariant(self);
        }
        &self.data
    }
}

/// Reads the image out of a read-back buffer: walks `raw` row by row and
/// keeps the first `width` pixels of each row of `row_pitch` bytes.
pub fn decode_padded(raw: &[u8], row_pitch: u32, width: u32, height: u32) -> (grid: PixelGrid)
    requires
        readable(raw@.len() as int, row_pitch as int, width as int, height as int),
    ensures
        grid@ == (Pixels {
            width,
            height,
            data: unpadded(raw@, row_pitch as int, width as int, height as int),
        }),
{
    decode_rows(raw, row_pitch as u64, width, height)
}

/// Reads the image out of a buffer whose rows start `pitch` bytes apart.
/// The pitch is carried in 64 bits: a row of `u32::MAX` pixels is four
/// times as many bytes.
fn decode_rows(raw: &[u8], pitch: u64, width: u32, height: u32) -> (grid: PixelGrid)
    requires
        readable(raw@.len() as int, pitch as int, width as int, height as int),
    ensures
        grid@ == (Pixels {
            width,
            height,
            data: unpadded(raw@, pitch as int, width as int, height as int),
        }),
{
    let mut data: Vec<u8> = Vec::new();
    if height == 0 {
        assert(4 * width * height == 0) by (nonlinear_arith)
            requires
                height == 0,
        ;
        assert(data@ =~= unpadded(raw@, pitch as int, width as int, height as int));
        return PixelGrid { width, height, data };
    }
    assert(4 * width <= 4 * width * height) by (nonlinear_arith)
        requires
            height >= 1,
            width >= 0,
    ;
    let row_bytes: usize = PIXEL * (width as usize);
    let mut y: u32 = 0;
    let mut row_start: usize = 0;
    let mut in_range: bool = true;
    while y < height
        invariant
            y <= height,
            row_bytes == 4 * width,
            row_bytes <= pitch,
            data@.len() == y * row_bytes,
            in_range ==> row_start == y * pitch && row_start <= raw@.len(),
            !in_range ==> y * pitch > raw@.len(),
            forall|j: int|
                0 <= j < data@.len() ==> data@[j] == sample(
                    raw@,
                    pitch as int,
                    row_bytes as int,
                    j,
                ),
        decreases height - y,
    {
        let mut k: usize = 0;
        while k < row_bytes
            invariant
                y < height,
                row_bytes == 4 * width,
                row_bytes <= pitch,
                k % 4 == 0,
                k <= row_bytes,
                data@.len() == y * row_bytes + k,
                in_range ==> row_start == y * pitch && row_start <= raw@.len(),
                !in_range ==> y * pitch > raw@.len(),
                forall|j: int|
                    0 <= j < data@.len() ==> data@[j] == sample(
                        raw@,
                        pitch as int,
                        row_bytes as int,
                        j,
                    ),
            decreases row_bytes - k,
        {
            let ghost before = data@;
            let present = in_range && raw.len() - row_start >= k + PIXEL;
            if present {
                data.push(raw[row_start + k]);
                data.push(raw[row_start + k + 1]);
                data.push(raw[row_start + k + 2]);
                data.push(raw[row_start + k + 3]);
            } else {
                data.push(0);
                data.push(0);
                data.push(0);
                data.push(0);
            }
            proof {
                assert forall|j: int| 0 <= j < data@.len() implies data@[j] == sample(
                    raw@,
                    pitch as int,
                    row_bytes as int,
                    j,
                ) by {
                    if j >= before.len() {
                        lemma_sample_at(
                            raw@,
                            pitch as int,
                            row_bytes as int,
                            y as int,
                            k as int,
                            j - before.len(),
                        );
                    }
                }
            }
            k += PIXEL;
        }
        proof {
            assert((y + 1) * pitch == y * pitch + pitch) by (nonlinear_arith);
            assert((y + 1) * row_bytes == y * row_bytes + row_bytes) by (nonlinear_arith);
        }
        if in_range && (raw.len() - row_start) as u64 >= pitch {
            row_start += pitch as usize;
        } else {
            in_range = false;
        }
        y += 1;
    }
    proof {
        assert(height * row_bytes == 4 * width * height) by (nonlinear_arith)
            requires
                row_bytes == 4 * width,
        ;
        assert(data@ =~= unpadded(raw@, pitch as int, width as int, height as int));
    }
    PixelGrid { width, height, data }
}

/// Lays the rows of `grid` out `row_pitch` bytes apart, as a read-back
/// buffer holds them, with zeros in the padding.
pub fn pad_rows(grid: &PixelGrid, row_pitch: u32) -> (raw: Vec<u8>)
    requires
        4 * grid@.width <= row_pitch,
        row_pitch * grid@.height <= usize::MAX,
    ensures
        is_padded_layout(
            raw@,
            row_pitch as int,
            grid@.width as int,
            grid@.height as int,
            grid@.data,
        ),
{
    proof {
        use_type_invariant(grid);
    }
    let pitch: usize = row_pitch as usize;
    let row_bytes: usize = PIXEL * (grid.width as usize);
    let height = grid.height;
    let total: usize = grid.data.len();
    let mut raw: Vec<u8> = Vec::new();
    let mut y: u32 = 0;
    proof {
        assert(height * row_bytes == 4 * grid.width * height) by (nonlinear_arith)
            requires
                row_bytes == 4 * grid.width,
        ;
    }
    while y < height
        invariant
            y <= height,
            height == grid.height,
            pitch == row_pitch,
            row_bytes == 4 * grid.width,
            row_bytes <= pitch,
            pitch * height <= usize::MAX,
            grid.data@.len() == height * row_bytes,
            grid.data@.len() == total,
            raw@.len() == y * pitch,
            forall|r: int, k: int|
                0 <= r < y && 0 <= k < row_bytes ==> #[trigger] row_byte(raw@, pitch as int, r, k)
                    == row_byte(grid.data@, row_bytes as int, r, k),
        decreases height - y,
    {
        proof {
            assert((y + 1) * pitch == y * pitch + pitch) by (nonlinear_arith);
            assert((y + 1) * row_bytes == y * row_bytes + row_bytes) by (nonlinear_arith);
            assert((y + 1) * pitch <= height * pitch) by (nonlinear_arith)
                requires
                    y + 1 <= height,
                    0 <= pitch,
            ;
            assert((y + 1) * row_bytes <= height * row_bytes) by (nonlinear_arith)
                requires
                    y + 1 <= height,
                    0 <= row_bytes,
            ;
            assert(pitch * height == height * pitch) by (nonlinear_arith);
        }
        let ghost rows_before = raw@;
        assert(0 <= y * row_bytes) by (nonlinear_arith)
            requires
                0 <= y,
                0 <= row_bytes,
        ;
        let mut k: usize = 0;
        while k < pitch
            invariant
                k <= pitch,
                y < height,
                row_bytes <= pitch,
                0 <= y * row_bytes,
                raw@.len() == y * pitch + k,
                (y + 1) * pitch <= usize::MAX,
                y * row_bytes + row_bytes <= grid.data@.len(),
                grid.data@.len() == total,
                rows_before.len() == y * pitch,
                forall|i: int| 0 <= i < rows_before.len() ==> raw@[i] == rows_before[i],
                forall|i: int|
                    0 <= i < k && i < row_bytes ==> #[trigger] row_byte(
                        raw@,
                        pitch as int,
                        y as int,
                        i,
                    ) == row_byte(grid.data@, row_bytes as int, y as int, i),
            decreases pitch - k,
        {
            let ghost row_before = raw@;
            if k < row_bytes {
                let at: usize = y as usize * row_bytes + k;
                raw.push(grid.data[at]);
            } else {
                raw.push(0);
            }
            proof {
                assert forall|i: int| 0 <= i < k + 1 && i < row_bytes implies #[trigger] row_byte(
                    raw@,
                    pitch as int,
                    y as int,
                    i,
                ) == row_byte(grid.data@, row_bytes as int, y as int, i) by {
                    if i < k {
                        assert(row_byte(row_before, pitch as int, y as int, i) == row_byte(
                            grid.data@,
                            row_bytes as int,
                            y as int,
                            i,
                        ));
                    }
                }
            }
            k += 1;
        }
        proof {
            assert forall|r: int, i: int|
                0 <= r < y + 1 && 0 <= i < row_bytes implies #[trigger] row_byte(
                raw@,
                pitch as int,
                r,
                i,
            ) == row_byte(grid.data@, row_bytes as int, r, i) by {
                if r < y {
                    assert(r * pitch + i < y * pitch) by (nonlinear_arith)
                        requires
                            0 <= r < y,
                            0 <= i < pitch,
                    ;
                    assert(0 <= r * pitch + i) by (nonlinear_arith)
                        requires
                            0 <= r,
                            0 <= i,
                            0 <= pitch,
                    ;
                    assert(row_byte(rows_before, pitch as int, r, i) == row_byte(
                        grid.data@,
                        row_bytes as int,
                        r,
                        i,
                    ));
                }
            }
        }
        y += 1;
    }
    proof {
        assert(row_pitch * grid@.height == height * pitch) by (nonlinear_arith)
            requires
                pitch == row_pitch,
                height == grid@.height,
        ;
        assert forall|r: int, k: int|
            0 <= r < grid@.height && 0 <= k < 4 * grid@.width implies #[trigger] row_byte(
            raw@,
            row_pitch as int,
            r,
            k,
        ) == row_byte(grid@.data, 4 * grid@.width, r, k) by {
            assert(row_byte(raw@, pitch as int, r, k) == row_byte(
                grid.data@,
                row_bytes as int,
                r,
                k,
            ));
        }
    }
    raw
}

/// The name of what `ImageBuffer::write_to` writes for the PNG format: the
/// bytes of the file for an 8-bit RGBA image of `width` by `height` pixels
/// with the pixel bytes `pixels`, or `None` where the encoder refuses the
/// image.
pub uninterp spec fn png_encoding(pixels: Seq<u8>, width: u32, height: u32) -> Option<Seq<u8>>;

#[verifier::external_type_specification]
#[verifier::external_body]
pub struct ExImageError(ImageError);

/// `ImageBuffer::from_raw` followed by `ImageBuffer::write_to` with
/// `ImageOutputFormat::Png`, writing into memory. The buffer is taken as
/// 8-bit RGBA pixels. `from_raw` computes the length it needs as 4 times
/// the width times the height, in that order and in `usize`, and accepts
/// the buffer where that length can be computed and the buffer holds it:
/// with neither dimension zero and exactly 4 bytes for each pixel, every
/// step of that product is at most the length of the buffer. The encoder
/// works on nothing but the pixels and the two dimensions, so what it
/// returns is named after them. It is not promised to succeed.
#[verifier::external_body]
fn write_png(pixels: &Vec<u8>, width: u32, height: u32) -> (encoded: Result<Vec<u8>, ImageError>)
    requires
        width > 0,
        height > 0,
        pixels@.len() == 4 * width * height,
    ensures
        match encoded {
            Ok(bytes) => png_encoding(pixels@, width, height) == Some(bytes@),
            Err(_) => png_encoding(pixels@, width, height) is None,
        },
{
    let image_buffer = ImageBuffer::<Rgba<u8>, &[u8]>::from_raw(width, height, pixels.as_slice())
        .unwrap();
    let mut byte_stream = Vec::new();
    image_buffer.write_to(&mut Cursor::new(&mut byte_stream), ImageOutputFormat::Png)?;
    Ok(byte_stream)
}

/// What encoding gives: an image without pixels is not handed to the
/// encoder, any other gives what the encoder makes of it.
pub open spec fn encoded(pixels: Pixels) -> Result<Seq<u8>, ExportError> {
    if pixels.width == 0 || pixels.height == 0 {
        Err(ExportError::Empty)
    } else {
        match png_encoding(pixels.data, pixels.width, pixels.height) {
            Some(bytes) => Ok(bytes),
            None => Err(ExportError::Encoding),
        }
    }
}

/// Serializes the grid as a PNG file. A grid without pixels has no file.
pub fn encode_png(grid: &PixelGrid) -> (bytes: Result<Vec<u8>, ExportError>)
    ensures
        match bytes {
            Ok(b) => encoded(grid@) == Ok::<Seq<u8>, ExportError>(b@),
            Err(e) => encoded(grid@) == Err::<Seq<u8>, ExportError>(e),
        },
{
    proof {
        use_type_invariant(grid);
    }
    if grid.width == 0 || grid.height == 0 {
        return Err(ExportError::Empty);
    }
    match write_png(&grid.data, grid.width, grid.height) {
        Ok(bytes) => Ok(bytes),
        Err(_) => Err(ExportError::Encoding),
    }
}

/// What `arr_to_image` gives: the file of the image read out of the
/// buffer, whose rows are `row_pixels` pixels apart, where the buffer can be
/// read so.
pub open spec fn image_file(raw: Seq<u8>, row_pixels: u32, width: u32, height: u32) -> Result<
    Seq<u8>,
    ExportError,
> {
    if readable(raw.len() as int, 4 * row_pixels, width as int, height as int) {
        encoded(
            Pixels {
                width,
                height,
                data: unpadded(raw, 4 * row_pixels, width as int, height as int),
            },
        )
    } else {
        Err(ExportError::Layout)
    }
}

///Transforms an array of raw image bytes into a PNG file
///
/// `img` holds rows of `bytes_per_row` pixels each, of which the first
/// `width` belong to the image.
pub fn arr_to_image(img: &[u8], bytes_per_row: u32, width: u32, height: u32) -> (file: Result<
    Vec<u8>,
    ExportError,
>)
    ensures
        match file {
            Ok(b) => image_file(img@, bytes_per_row, width, height) == Ok::<Seq<u8>, ExportError>(
                b@,
            ),
            Err(e) => image_file(img@, bytes_per_row, width, height) == Err::<
                Seq<u8>,
                ExportError,
            >(e),
        },
{
    if width > bytes_per_row {
        return Err(ExportError::Layout);
    }
    let pitch: u64 = 4 * (bytes_per_row as u64);
    assert(pitch * height <= 4 * u32::MAX * u32::MAX) by (nonlinear_arith)
        requires
            pitch <= 4 * u32::MAX,
            height <= u32::MAX,
    ;
    assert(width * height <= u32::MAX * u32::MAX) by (nonlinear_arith)
        requires
            width <= u32::MAX,
            height <= u32::MAX,
    ;
    assert(4 * width * height == 4 * (width * height)) by (nonlinear_arith);
    let capacity: u128 = pitch as u128 * height as u128;
    let pixels: u64 = width as u64 * height as u64;
    if img.len() as u128 > capacity || pixels > (usize::MAX / 4) as u64 {
        return Err(ExportError::Layout);
    }
    let grid = decode_rows(img, pitch, width, height);
    encode_png(&grid)
}

/// Transforms an array of raw image bytes without padding into a PNG file
pub fn export_vec_to_png(img: &[u8], width: u32, height: u32) -> (file: Result<
    Vec<u8>,
    ExportError,
>)
    ensures
        match file {
            Ok(b) => image_file(img@, width, width, height) == Ok::<Seq<u8>, ExportError>(b@),
            Err(e) => image_file(img@, width, width, height) == Err::<Seq<u8>, ExportError>(e),
        },
{
    arr_to_image(img, width, width, height)
}

/// The byte at offset `k + c` of row `y` of the image is the byte at the
/// same offset of row `y` of the buffer, where the buffer holds the pixel
/// that starts at offset `k`.
proof fn lemma_sample_at(raw: Seq<u8>, pitch: int, row_bytes: int, y: int, k: int, c: int)
    requires
        0 <= y,
        0 <= k,
        k % 4 == 0,
        0 <= c < 4,
        k + c < row_bytes,
    ensures
        sample(raw, pitch, row_bytes, y * row_bytes + k + c) == (if y * pitch + k + 4
            <= raw.len() {
            raw[y * pitch + k + c]
        } else {
            0u8
        }),
{
    lemma_fundamental_div_mod_converse(y * row_bytes + k + c, row_bytes, y, k + c);
}

/// The round trip through the read-back buffer: an image that was copied
/// into a buffer with the row pitch of its width comes out again byte for
/// byte, whether its rows had to be padded or not.
pub proof fn lemma_readback_round_trip(raw: Seq<u8>, width: u32, height: u32, data: Seq<u8>)
    requires
        is_padded_layout(raw, row_pitch(width), width as int, height as int, data),
    ensures
        unpadded(raw, row_pitch(width), width as int, height as int) == data,
{
    lemma_unpadded_inverts_padding(raw, row_pitch(width), width as int, height as int, data);
}

/// Reading back what was laid out with padding gives the image again,
/// byte for byte, whatever stands in the padding.
pub proof fn lemma_unpadded_inverts_padding(
    raw: Seq<u8>,
    pitch: int,
    width: int,
    height: int,
    data: Seq<u8>,
)
    requires
        is_padded_layout(raw, pitch, width, height, data),
    ensures
        unpadded(raw, pitch, width, height) == data,
{
    let row_bytes = 4 * width;
    let out = unpadded(raw, pitch, width, height);
    assert forall|j: int| 0 <= j < out.len() implies out[j] == data[j] by {
        assert(0 < height && 0 < row_bytes) by (nonlinear_arith)
            requires
                0 <= j < 4 * width * height,
                0 <= width,
                0 <= height,
                row_bytes == 4 * width,
        ;
        let y = j / row_bytes;
        let k = j % row_bytes;
        vstd::arithmetic::div_mod::lemma_fundamental_div_mod(j, row_bytes);
        assert(0 <= y < height) by (nonlinear_arith)
            requires
                j == row_bytes * y + k,
                0 <= k < row_bytes,
                0 <= j < 4 * width * height,
                row_bytes == 4 * width,
                0 < row_bytes,
        ;
        assert(y * pitch + (k - k % 4) + 4 <= raw.len()) by (nonlinear_arith)
            requires
                0 <= y < height,
                0 <= k < row_bytes,
                row_bytes <= pitch,
                row_bytes % 4 == 0,
                raw.len() == pitch * height,
                0 <= k % 4 <= k,
                k - k % 4 + 4 <= row_bytes,
        ;
        assert(row_byte(raw, pitch, y, k) == row_byte(data, 4 * width, y, k));
        assert(y * (4 * width) + k == j) by (nonlinear_arith)
            requires
                j == row_bytes * y + k,
                row_bytes == 4 * width,
        ;
    }
}

} // verus!
