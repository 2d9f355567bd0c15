//! Geometry of the pixel grid and the sector-based hue-to-RGB color map.
//!
//! The buffer is a row-major grid of `PIXEL_ROWS` by `PIXEL_COLS` pixels,
//! three bytes per pixel (red, green, blue). The byte offset of a channel is
//! `(row * PIXEL_COLS + col) * PIXEL_CHANNELS + channel`; host and guest must
//! agree on this formula.

use vstd::prelude::*;

verus! {

/// Number of pixel rows in the grid.
pub const PIXEL_ROWS: usize = 16;

/// Number of pixel columns in the grid.
pub const PIXEL_COLS: usize = 16;

/// Bytes per pixel: one channel value each for red, green and blue.
pub const PIXEL_CHANNELS: usize = 3;

/// Total size in bytes of one pixel buffer.
pub const PIXEL_BUFFER_SIZE: usize = PIXEL_ROWS * PIXEL_COLS * PIXEL_CHANNELS;

/// An all-zero (black) pixel buffer.
pub open spec fn zero_pixels() -> Seq<u8> {
    Seq::new(PIXEL_BUFFER_SIZE as nat, |i: int| 0u8)
}

/// A fresh all-zero pixel buffer of the fixed size.
pub fn zeroed_buffer() -> (v: Vec<u8>)
    ensures
        v@ == zero_pixels(),
{
    let mut v: Vec<u8> = Vec::new();
    while v.len() < PIXEL_BUFFER_SIZE
        invariant
            v@.len() <= PIXEL_BUFFER_SIZE as nat,
            forall|i: int| 0 <= i < v@.len() ==> v@[i] == 0u8,
        decreases PIXEL_BUFFER_SIZE as int - v@.len(),
    {
        v.push(0u8);
    }
    proof {
        assert(v@ =~= zero_pixels());
    }
    v
}

/// Byte offset of the first channel of the pixel at `row`, `col`.
pub open spec fn pixel_offset(row: int, col: int) -> int {
    (row * (PIXEL_COLS as int) + col) * (PIXEL_CHANNELS as int)
}

/// Row of the pixel that byte `i` of the buffer belongs to.
pub open spec fn row_of(i: int) -> int {
    i / ((PIXEL_COLS * PIXEL_CHANNELS) as int)
}

/// Column of the pixel that byte `i` of the buffer belongs to.
pub open spec fn col_of(i: int) -> int {
    (i % ((PIXEL_COLS * PIXEL_CHANNELS) as int)) / (PIXEL_CHANNELS as int)
}

/// Channel (0 red, 1 green, 2 blue) that byte `i` of the buffer holds.
pub open spec fn chan_of(i: int) -> int {
    i % (PIXEL_CHANNELS as int)
}

/// The channel `chan` of an (r, g, b) triple.
pub open spec fn channel(rgb: (u8, u8, u8), chan: int) -> u8 {
    if chan == 0 {
        rgb.0
    } else if chan == 1 {
        rgb.1
    } else {
        rgb.2
    }
}

/// Byte offsets decompose uniquely: byte `pixel_offset(row, col) + chan`
/// belongs to row `row`, column `col` and channel `chan`.
pub proof fn lemma_offset_decomposition(row: int, col: int, chan: int)
    requires
        0 <= row < PIXEL_ROWS as int,
        0 <= col < PIXEL_COLS as int,
        0 <= chan < PIXEL_CHANNELS as int,
    ensures
        0 <= pixel_offset(row, col) + chan < PIXEL_BUFFER_SIZE as int,
        row_of(pixel_offset(row, col) + chan) == row,
        col_of(pixel_offset(row, col) + chan) == col,
        chan_of(pixel_offset(row, col) + chan) == chan,
{
    let i = pixel_offset(row, col) + chan;
    assert(i == row * 48 + (col * 3 + chan));
    assert(0 <= col * 3 + chan < 48) by (nonlinear_arith)
        requires 0 <= col < 16 && 0 <= chan < 3;
    assert(i / 48 == row && i % 48 == col * 3 + chan) by (nonlinear_arith)
        requires i == row * 48 + (col * 3 + chan) && 0 <= col * 3 + chan < 48 && 0 <= row;
    assert((col * 3 + chan) / 3 == col && (col * 3 + chan) % 3 == chan) by (nonlinear_arith)
        requires 0 <= chan < 3 && 0 <= col;
    assert(i % 3 == chan) by (nonlinear_arith)
        requires i == (row * 16 + col) * 3 + chan && 0 <= chan < 3 && 0 <= row * 16 + col;
}

/// Exec computation of a channel's byte offset inside the buffer.
pub fn byte_offset(row: usize, col: usize, chan: usize) -> (r: usize)
    requires
        row < PIXEL_ROWS,
        col < PIXEL_COLS,
        chan < PIXEL_CHANNELS,
    ensures
        r == pixel_offset(row as int, col as int) + chan,
        r < PIXEL_BUFFER_SIZE,
{
    (row * PIXEL_COLS + col) * PIXEL_CHANNELS + chan
}

/// The hue-to-RGB map at saturation and value 1: hue space [0, 256) is split
/// into six sectors of width 43; within a sector the changing channel moves
/// in steps of 6.
pub open spec fn hsv_rgb_spec(hue: u8) -> (u8, u8, u8) {
    let h = hue as int;
    let sector = h / 43;
    let off = (h % 43) * 6;
    if sector == 0 {
        (255u8, off as u8, 0u8)
    } else if sector == 1 {
        ((255 - off) as u8, 255u8, 0u8)
    } else if sector == 2 {
        (0u8, 255u8, off as u8)
    } else if sector == 3 {
        (0u8, (255 - off) as u8, 255u8)
    } else if sector == 4 {
        (off as u8, 0u8, 255u8)
    } else {
        (255u8, 0u8, (255 - off) as u8)
    }
}

/// Sector-based hue-to-RGB conversion with saturation and value fixed at 1.
pub fn hsv_to_rgb(hue: u8) -> (rgb: (u8, u8, u8))
    ensures
        rgb == hsv_rgb_spec(hue),
{
    let h = hue as u16;
    let sector = h / 43;
    let off = (h % 43) * 6;
    proof {
        assert(h % 43 < 43);
        assert(off <= 252);
    }
    match sector {
        0 => (255, off as u8, 0),
        1 => (255 - off as u8, 255, 0),
        2 => (0, 255, off as u8),
        3 => (0, 255 - off as u8, 255),
        4 => (off as u8, 0, 255),
        _ => (255, 0, 255 - off as u8),
    }
}

} // verus!
