//! Showing the four shades on a screen of black and white pixels.
use vstd::prelude::*;
use crate::lcd::GreyShade;

verus! {

/// Bytes in one row of the host's frame buffer.
pub const ROW_BYTES: usize = 52;

/// Columns by which the picture is moved right to centre it.
pub const X_OFFSET: usize = 64;

/// Whether the pixel at column `x` of row `y` of the host's screen is white
/// when it shows `shade`. White is all white and black all black; light grey
/// is a chequerboard; dark grey has every third pixel white, moved by one on
/// odd rows.
pub open spec fn spec_should_be_white(shade: GreyShade, x: usize, y: usize) -> bool {
    match shade {
        GreyShade::White => true,
        GreyShade::LightGrey => (x + y % 2) % 2 == 0,
        GreyShade::DarkGrey => (x + y % 2) % 3 == 0,
        GreyShade::Black => false,
    }
}

/// Whether the pixel at column `x` of row `y` of the host's screen is white
/// when it shows `shade`.
pub fn should_be_white(shade: GreyShade, x: usize, y: usize) -> (r: bool)
    requires
        x < usize::MAX,
    ensures
        r == spec_should_be_white(shade, x, y),
{
    match shade {
        GreyShade::White => true,
        GreyShade::LightGrey => (x + y % 2) % 2 == 0,
        GreyShade::DarkGrey => (x + y % 2) % 3 == 0,
        GreyShade::Black => false,
    }
}

/// The bit that stands for column `x` in its byte of the frame buffer: the
/// leftmost of eight pixels is bit 7.
pub open spec fn spec_pixel_mask(x: usize) -> u8 {
    if x % 8 == 0 {
        128
    } else if x % 8 == 1 {
        64
    } else if x % 8 == 2 {
        32
    } else if x % 8 == 3 {
        16
    } else if x % 8 == 4 {
        8
    } else if x % 8 == 5 {
        4
    } else if x % 8 == 6 {
        2
    } else {
        1
    }
}

/// The bit that stands for column `x` in its byte of the frame buffer.
pub fn pixel_mask(x: usize) -> (r: u8)
    ensures
        r == spec_pixel_mask(x),
{
    match x % 8 {
        0 => 128,
        1 => 64,
        2 => 32,
        3 => 16,
        4 => 8,
        5 => 4,
        6 => 2,
        _ => 1,
    }
}

/// The index in the frame buffer of the byte that holds column `x` of row `y`.
pub open spec fn spec_frame_byte_index(x: usize, y: usize) -> int {
    y * ROW_BYTES + (x + X_OFFSET) / 8
}

/// The index in the frame buffer of the byte that holds column `x` of row `y`.
pub fn frame_byte_index(x: usize, y: usize) -> (r: usize)
    requires
        x < 400,
        y < 240,
    ensures
        r == spec_frame_byte_index(x, y),
{
    y * ROW_BYTES + (x + X_OFFSET) / 8
}

} // verus!
