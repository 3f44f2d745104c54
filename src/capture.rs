//! Normalisation of raw window captures into grayscale frames.

use vstd::prelude::*;
use vstd::string::*;
use crate::error::{Error, ErrorKind};

verus! {

/// Bytes of one pixel in the capture layout: blue, green, red, alpha.
pub const BYTES_PER_PIXEL: usize = 4;

/// A raw capture as the window server delivers it: a row-major buffer whose
/// rows may be padded beyond the pixels they hold.
#[derive(Clone, Debug)]
pub struct RawCapture {
    /// Number of rows.
    pub height: usize,
    /// Bytes from the start of one row to the start of the next (the stride).
    pub bytes_per_row: usize,
    /// Bits of one pixel.
    pub bits_per_pixel: usize,
    /// Bits of one color channel.
    pub bits_per_component: usize,
    /// The pixel bytes.
    pub data: Vec<u8>,
}

/// A single-channel grayscale frame, row-major, one byte per pixel.
#[derive(Clone, Debug)]
pub struct GrayFrame {
    /// Width in pixels.
    pub width: u32,
    /// Height in pixels.
    pub height: u32,
    /// `width * height` gray levels.
    pub pixels: Vec<u8>,
}

/// Gray level of one pixel from its blue, green and red channels, with the
/// fixed-point weights 0.114, 0.587 and 0.299 scaled by 2^14, rounded.
pub open spec fn gray_level(b: u8, g: u8, r: u8) -> int {
    (b as int * 1868 + g as int * 9617 + r as int * 4899 + 8192) / 16384
}

/// Offset in the raw buffer of the pixel at `row`, `col`.
pub open spec fn pixel_offset(stride: int, row: int, col: int) -> int {
    row * stride + col * 4
}

/// Gray level of the pixel at `row`, `col` of a raw buffer.
pub open spec fn gray_at(data: Seq<u8>, stride: int, row: int, col: int) -> int {
    let o = pixel_offset(stride, row, col);
    gray_level(data[o], data[o + 1], data[o + 2])
}

/// Whether the stride times the row count matches the buffer length.
pub open spec fn complete(raw: RawCapture) -> bool {
    raw.bytes_per_row * raw.height == raw.data@.len()
}

/// Whether the pixel layout is the fixed four-channel one.
pub open spec fn four_channels(raw: RawCapture) -> bool {
    raw.bits_per_component > 0 && raw.bits_per_pixel / raw.bits_per_component == 4
}

/// Logical width of a capture: the stride divided by the pixel size, padding
/// dropped.
pub open spec fn logical_width(raw: RawCapture) -> int {
    raw.bytes_per_row as int / 4
}

/// Whether a capture is one that normalises to a frame.
pub open spec fn normalizable(raw: RawCapture) -> bool {
    &&& complete(raw)
    &&& four_channels(raw)
    &&& logical_width(raw) <= u32::MAX
    &&& raw.height <= u32::MAX
}

/// Whether `f` is the grayscale frame of `raw`.
pub open spec fn is_gray_frame_of(f: GrayFrame, raw: RawCapture) -> bool {
    &&& f.width == logical_width(raw)
    &&& f.height == raw.height
    &&& f.pixels@.len() == f.width * f.height
    &&& forall|row: int, col: int|
        0 <= row < f.height && 0 <= col < f.width ==> #[trigger] f.pixels@[row * f.width + col]
            == gray_at(raw.data@, raw.bytes_per_row as int, row, col)
}

proof fn lemma_pixel_in_bounds(row: int, col: int, stride: int, w: int, h: int)
    requires
        0 <= row < h,
        0 <= col < w,
        w * 4 <= stride,
    ensures
        pixel_offset(stride, row, col) + 3 < stride * h,
        pixel_offset(stride, row, col) >= 0,
{
    assert(row * stride + stride <= h * stride) by (nonlinear_arith)
        requires row + 1 <= h, stride >= 0;
    assert(col * 4 + 4 <= stride);
    assert(row * stride >= 0) by (nonlinear_arith)
        requires row >= 0, stride >= 0;
}

proof fn lemma_cell_below(rr: int, cc: int, row: int, w: int)
    requires
        0 <= rr < row,
        0 <= cc < w,
    ensures
        rr * w + cc < row * w,
        0 <= rr * w + cc,
{
    assert(rr * w + w <= row * w) by (nonlinear_arith)
        requires rr + 1 <= row, w >= 0;
    assert(rr * w >= 0) by (nonlinear_arith)
        requires rr >= 0, w >= 0;
}

fn gray_of_pixel(b: u8, g: u8, r: u8) -> (v: u8)
    ensures
        v == gray_level(b, g, r),
{
    let s: u32 = b as u32 * 1868 + g as u32 * 9617 + r as u32 * 4899 + 8192;
    (s / 16384) as u8
}

/// Converts a raw capture into a grayscale frame.
///
/// Fails with `Platform` when the stride times the row count differs from the
/// buffer length (an incomplete frame), when the pixels are not four
/// channels, or when the frame's sides do not fit `u32`; no conversion is
/// attempted then.
pub fn normalize(raw: &RawCapture) -> (r: Result<GrayFrame, Error>)
    ensures
        r is Ok <==> normalizable(*raw),
        r matches Ok(f) ==> is_gray_frame_of(f, *raw),
        r matches Err(e) ==> e.kind == ErrorKind::Platform,
{
    let stride = raw.bytes_per_row;
    let h = raw.height;
    let len = raw.data.len();
    match stride.checked_mul(h) {
        Some(n) => {
            if n != len {
                return Err(Error::new(ErrorKind::Platform, String::from_str("incomplete frame from the window server")));
            }
        },
        None => {
            return Err(Error::new(ErrorKind::Platform, String::from_str("incomplete frame from the window server")));
        },
    }
    if raw.bits_per_component == 0 || raw.bits_per_pixel / raw.bits_per_component != BYTES_PER_PIXEL {
        return Err(Error::new(ErrorKind::Platform, String::from_str("unexpected pixel layout")));
    }
    let w = stride / BYTES_PER_PIXEL;
    if w > u32::MAX as usize || h > u32::MAX as usize {
        return Err(Error::new(ErrorKind::Platform, String::from_str("frame too large")));
    }
    let ghost data = raw.data@;
    let mut pixels: Vec<u8> = Vec::new();
    let mut row: usize = 0;
    while row < h
        invariant
            0 <= row <= h,
            stride * h == data.len(),
            data.len() == len,
            w * 4 <= stride,
            data == raw.data@,
            stride == raw.bytes_per_row,
            pixels@.len() == row * w,
            forall|rr: int, cc: int|
                0 <= rr < row && 0 <= cc < w ==> #[trigger] pixels@[rr * w + cc]
                    == gray_at(data, stride as int, rr, cc),
        decreases h - row,
    {
        let mut col: usize = 0;
        let ghost before = pixels@;
        while col < w
            invariant
                0 <= row < h,
                0 <= col <= w,
                stride * h == data.len(),
                data.len() == len,
                w * 4 <= stride,
                data == raw.data@,
                stride == raw.bytes_per_row,
                pixels@.len() == row * w + col,
                before.len() == row * w,
                forall|i: int| 0 <= i < row * w ==> pixels@[i] == before[i],
                forall|cc: int| 0 <= cc < col ==> #[trigger] pixels@[row * w + cc]
                    == gray_at(data, stride as int, row as int, cc),
            decreases w - col,
        {
            proof {
                lemma_pixel_in_bounds(row as int, col as int, stride as int, w as int, h as int);
            }
            let o = row * stride + col * BYTES_PER_PIXEL;
            let v = gray_of_pixel(raw.data[o], raw.data[o + 1], raw.data[o + 2]);
            pixels.push(v);
            col = col + 1;
        }
        proof {
            assert forall|rr: int, cc: int|
                0 <= rr < row + 1 && 0 <= cc < w implies #[trigger] pixels@[rr * w + cc]
                    == gray_at(data, stride as int, rr, cc) by {
                if rr < row {
                    lemma_cell_below(rr, cc, row as int, w as int);
                    assert(pixels@[rr * w + cc] == before[rr * w + cc]);
                }
            }
            assert((row + 1) * w == row * w + w) by (nonlinear_arith);
        }
        row = row + 1;
    }
    assert(row * w == w * h) by (nonlinear_arith)
        requires row == h;
    let f = GrayFrame { width: w as u32, height: h as u32, pixels };
    assert forall|rr: int, cc: int|
        0 <= rr < f.height && 0 <= cc < f.width implies #[trigger] f.pixels@[rr * f.width + cc]
            == gray_at(raw.data@, raw.bytes_per_row as int, rr, cc) by {
        assert(f.pixels@[rr * w + cc] == gray_at(data, stride as int, rr, cc));
    }
    Ok(f)
}

} // verus!
