//! Reading rendered pixels back from the GPU: the layout of the staging
//! buffer, whose rows are padded to the copy alignment, and the conversion of
//! its 4-byte pixels into a bottom-up RGB image.
use vstd::prelude::*;
use vstd::arithmetic::div_mod::{lemma_fundamental_div_mod, lemma_fundamental_div_mod_converse};

use crate::format::{is_bgra, is_bgra_format, TexelFormat};

verus! {

/// `wgpu::COPY_BYTES_PER_ROW_ALIGNMENT`: the alignment, in bytes, that the
/// rows of a texture-to-buffer copy must have. The crate defines it as 256.
#[verifier::external_body]
fn copy_bytes_per_row_alignment() -> (align: usize)
    ensures
        align == 256,
{
    wgpu::COPY_BYTES_PER_ROW_ALIGNMENT as usize
}

/// The number of bytes of a pixel in the read-back texture.
pub const BYTES_PER_PIXEL: usize = 4;

/// The bytes of one row of `width` pixels, padded to the next multiple of 256.
pub open spec fn padded_row_bytes(width: int) -> int {
    let unpadded = width * 4;
    if unpadded % 256 == 0 {
        unpadded
    } else {
        (unpadded / 256 + 1) * 256
    }
}

/// The layout of the staging buffer that receives a read-back region.
#[derive(Copy, Clone, Debug, PartialEq, Eq, Hash, Structural)]
pub struct ReadbackLayout {
    /// Bytes per pixel of the texture: 4.
    pub bytes_per_pixel: usize,
    /// Bytes of the pixels of one row.
    pub unpadded_bytes_per_row: usize,
    /// Bytes of one row in the buffer, padded to the copy alignment.
    pub padded_bytes_per_row: usize,
    /// Bytes of the whole buffer.
    pub buffer_size: usize,
}

/// The padded row is the smallest multiple of 256 that holds the row's pixels.
pub proof fn lemma_padded_row_bytes(width: int)
    requires
        width >= 0,
    ensures
        padded_row_bytes(width) % 256 == 0,
        width * 4 <= padded_row_bytes(width) < width * 4 + 256,
{
    let u = width * 4;
    lemma_fundamental_div_mod(u, 256);
    if u % 256 != 0 {
        lemma_fundamental_div_mod_converse(padded_row_bytes(width), 256, u / 256 + 1, 0);
    }
}

/// The layout of the staging buffer for a region of `width` by `height` pixels.
pub fn readback_layout(width: usize, height: usize) -> (layout: ReadbackLayout)
    requires
        padded_row_bytes(width as int) <= usize::MAX,
        padded_row_bytes(width as int) * height <= usize::MAX,
    ensures
        layout.bytes_per_pixel == BYTES_PER_PIXEL,
        layout.unpadded_bytes_per_row == width * 4,
        layout.padded_bytes_per_row == padded_row_bytes(width as int),
        layout.buffer_size == padded_row_bytes(width as int) * height,
{
    proof {
        lemma_padded_row_bytes(width as int);
    }
    let bytes_per_pixel = BYTES_PER_PIXEL;
    let unpadded_bytes_per_row = width * bytes_per_pixel;
    let align = copy_bytes_per_row_alignment();
    let rows = unpadded_bytes_per_row / align;
    let padded_bytes_per_row = if unpadded_bytes_per_row % align == 0 {
        proof {
            lemma_fundamental_div_mod(unpadded_bytes_per_row as int, 256);
        }
        rows * align
    } else {
        (rows + 1) * align
    };
    let buffer_size = padded_bytes_per_row * height;
    ReadbackLayout { bytes_per_pixel, unpadded_bytes_per_row, padded_bytes_per_row, buffer_size }
}

/// Where, in the staging buffer, byte `i` of the RGB image comes from. The
/// image has `width` pixels per row and 3 bytes per pixel; its first row is
/// the bottom row of the texture; its channels are red, green, blue, taken
/// from RGBA or BGRA pixels.
pub open spec fn source_index(width: int, height: int, padded: int, bgra: bool, i: int) -> int {
    let pixel = i / 3;
    let channel = i % 3;
    let row = pixel / width;
    let col = pixel % width;
    (height - 1 - row) * padded + col * 4 + if bgra {
        2 - channel
    } else {
        channel
    }
}

/// The RGB image of the staging buffer `data`: 3 bytes per pixel, rows from
/// the bottom of the texture up.
pub open spec fn rgb_image(data: Seq<u8>, width: int, height: int, padded: int, bgra: bool) -> Seq<
    u8,
> {
    Seq::new((width * height * 3) as nat, |i: int| data[source_index(width, height, padded, bgra, i)])
}

/// Byte `ch` of pixel (`row`, `col`) of the image is at index `(row * width + col) * 3 + ch`.
pub proof fn lemma_source_index(
    width: int,
    height: int,
    padded: int,
    bgra: bool,
    row: int,
    col: int,
    ch: int,
)
    requires
        0 <= row,
        0 <= col < width,
        0 <= ch < 3,
    ensures
        source_index(width, height, padded, bgra, (row * width + col) * 3 + ch) == (height - 1 - row)
            * padded + col * 4 + (if bgra {
            2 - ch
        } else {
            ch
        }),
{
    let pixel = row * width + col;
    lemma_fundamental_div_mod_converse(pixel * 3 + ch, 3, pixel, ch);
    lemma_fundamental_div_mod_converse(pixel, width, row, col);
}

/// The image holds 3 bytes for each pixel, and pixel (`row`, `col`) of the
/// image has the red, green and blue bytes of pixel (`height - 1 - row`,
/// `col`) of the texture: the image is upside down with respect to the
/// texture, whose origin is its top-left corner.
pub proof fn lemma_rgb_pixel(
    data: Seq<u8>,
    width: int,
    height: int,
    padded: int,
    bgra: bool,
    row: int,
    col: int,
    ch: int,
)
    requires
        0 <= row < height,
        0 <= col < width,
        0 <= ch < 3,
    ensures
        rgb_image(data, width, height, padded, bgra).len() == width * height * 3,
        (row * width + col) * 3 + ch < width * height * 3,
        rgb_image(data, width, height, padded, bgra)[(row * width + col) * 3 + ch] == data[(height
            - 1 - row) * padded + col * 4 + (if bgra {
            2 - ch
        } else {
            ch
        })],
{
    lemma_source_index(width, height, padded, bgra, row, col, ch);
    assert((row * width + col) * 3 + ch < width * height * 3) by (nonlinear_arith)
        requires
            0 <= row < height,
            0 <= col < width,
            0 <= ch < 3,
    ;
    assert(width * height * 3 >= 0) by (nonlinear_arith)
        requires
            0 <= row < height,
            0 <= col < width,
    ;
}

/// Converts the staging buffer `data` of a read-back region of `width` by
/// `height` pixels, whose rows are `padded_bytes_per_row` bytes apart, into
/// an RGB image in `out`: 3 bytes per pixel, rows from the bottom of the
/// region up. `bgra` says that the pixels are stored blue first.
pub fn rgb_from_padded_rows(
    data: &[u8],
    width: usize,
    height: usize,
    padded_bytes_per_row: usize,
    bgra: bool,
    out: &mut Vec<u8>,
)
    requires
        width * 4 <= padded_bytes_per_row,
        padded_bytes_per_row * height <= data@.len(),
    ensures
        final(out)@ == rgb_image(data@, width as int, height as int, padded_bytes_per_row as int, bgra),
{
    let data_len = data.len();
    let ghost w = width as int;
    let ghost h = height as int;
    let ghost p = padded_bytes_per_row as int;
    assert(w * h * 3 <= p * h) by (nonlinear_arith)
        requires
            w * 4 <= p,
            0 <= w,
            0 <= h,
    ;
    assert(w * h <= w * h * 3) by (nonlinear_arith)
        requires
            0 <= w,
            0 <= h,
    ;
    let rgb_size = width * height * 3;
    out.clear();
    out.reserve(rgb_size);
    let mut row = height;
    while row > 0
        invariant
            w == width,
            h == height,
            p == padded_bytes_per_row,
            w * 4 <= p,
            p * h <= data@.len(),
            data@.len() == data_len,
            0 <= row <= height,
            out@.len() == (h - row) * w * 3,
            forall|j: int| 0 <= j < out@.len() ==> #[trigger] out@[j] == data@[source_index(w, h, p, bgra, j)],
        decreases row,
    {
        row = row - 1;
        let ghost out_row = h - 1 - row;
        assert(row * p + p <= p * h) by (nonlinear_arith)
            requires
                0 <= row < h,
                0 <= p,
        ;
        assert(row * p <= row * p + p) by (nonlinear_arith)
            requires
                0 <= p,
        ;
        let row_start = row * padded_bytes_per_row;
        assert(out@.len() == (out_row * w + 0) * 3) by (nonlinear_arith)
            requires
                out@.len() == (h - (row + 1)) * w * 3,
                out_row == h - 1 - row,
        ;
        let mut col: usize = 0;
        while col < width
            invariant
                w == width,
                h == height,
                p == padded_bytes_per_row,
                w * 4 <= p,
                p * h <= data@.len(),
                0 <= row < height,
                out_row == h - 1 - row,
                row_start == row * p,
                row * p + p <= data@.len(),
                data@.len() == data_len,
                0 <= col <= width,
                out@.len() == (out_row * w + col) * 3,
                forall|j: int| 0 <= j < out@.len() ==> #[trigger] out@[j] == data@[source_index(w, h, p, bgra, j)],
            decreases width - col,
        {
            assert(row_start + col * 4 + 4 <= data_len);
            let pixel_start = row_start + col * 4;
            let ghost base = (out_row * w + col) * 3;
            proof {
                lemma_source_index(w, h, p, bgra, out_row, col as int, 0);
                lemma_source_index(w, h, p, bgra, out_row, col as int, 1);
                lemma_source_index(w, h, p, bgra, out_row, col as int, 2);
            }
            if bgra {
                out.push(data[pixel_start + 2]);
                out.push(data[pixel_start + 1]);
                out.push(data[pixel_start]);
            } else {
                out.push(data[pixel_start]);
                out.push(data[pixel_start + 1]);
                out.push(data[pixel_start + 2]);
            }
            col = col + 1;
            assert(out@.len() == (out_row * w + col) * 3) by (nonlinear_arith)
                requires
                    out@.len() == base + 3,
                    base == (out_row * w + (col - 1)) * 3,
            ;
        }
        assert(out@.len() == (h - row) * w * 3) by (nonlinear_arith)
            requires
                out@.len() == (out_row * w + w) * 3,
                out_row == h - 1 - row,
        ;
    }
    proof {
        let img = rgb_image(data@, w, h, p, bgra);
        assert(out@.len() == w * h * 3) by (nonlinear_arith)
            requires
                out@.len() == (h - 0) * w * 3,
        ;
        assert(out@ =~= img);
    }
}

/// Converts the staging buffer of a read-back region of a texture of format
/// `format` into an RGB image, rows from the bottom up. The two 8-bit BGRA
/// formats store their pixels blue first; every other format is read red
/// first.
pub fn rgb_from_readback(
    format: &TexelFormat,
    data: &[u8],
    width: usize,
    height: usize,
    padded_bytes_per_row: usize,
    out: &mut Vec<u8>,
)
    requires
        width * 4 <= padded_bytes_per_row,
        padded_bytes_per_row * height <= data@.len(),
    ensures
        final(out)@ == rgb_image(
            data@,
            width as int,
            height as int,
            padded_bytes_per_row as int,
            is_bgra_format(*format),
        ),
{
    let bgra = is_bgra(format);
    rgb_from_padded_rows(data, width, height, padded_bytes_per_row, bgra, out);
}

} // verus!
