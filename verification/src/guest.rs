//! A reference compute module: the deterministic guest-side logic that fills
//! the pixel buffer for each animation frame.
//!
//! The module owns a fixed 768-byte buffer and exposes the guest entry points
//! as safe operations: `init` zeroes the buffer, `update` selects a pattern
//! program from the frame counter alone and runs it, and `mem_read` /
//! `mem_write` give indexed diagnostic access with the guest-side bounds
//! check. Every operation is a pure function of the frame counter and the
//! previous buffer contents, so animation is reproducible for a given counter
//! value.

use vstd::prelude::*;
use vstd::arithmetic::div_mod::{
    lemma_add_mod_noop_right, lemma_fundamental_div_mod, lemma_hoist_over_denominator,
    lemma_mod_add_multiples_vanish, lemma_mod_multiples_vanish, lemma_small_mod,
};
use crate::pixel::{
    channel, chan_of, col_of, hsv_rgb_spec, hsv_to_rgb, byte_offset, pixel_offset, row_of,
    zero_pixels, zeroed_buffer, PIXEL_BUFFER_SIZE, PIXEL_CHANNELS, PIXEL_COLS, PIXEL_ROWS,
};

verus! {

/// Hue of the diagonal rainbow at `row`, `col` for frame `frame`:
/// `((row + col) * 8 + frame * 2) mod 256`.
pub open spec fn gradient_hue(row: int, col: int, frame: u64) -> u8 {
    (((row + col) * 8 + (frame as int) * 2) % 256) as u8
}

/// Color of the diagonal-rainbow program at one cell.
pub open spec fn gradient_pixel(row: int, col: int, frame: u64) -> (u8, u8, u8) {
    hsv_rgb_spec(gradient_hue(row, col, frame))
}

/// Byte `i` of the buffer after the diagonal-rainbow program ran for `frame`.
pub open spec fn gradient_byte(frame: u64, i: int) -> u8 {
    channel(gradient_pixel(row_of(i), col_of(i), frame), chan_of(i))
}

/// The whole buffer after the diagonal-rainbow program ran for `frame`.
pub open spec fn gradient_pixels(frame: u64) -> Seq<u8> {
    Seq::new(PIXEL_BUFFER_SIZE as nat, |i: int| gradient_byte(frame, i))
}

/// The sparse program touches exactly the cells with odd row and odd column;
/// every other cell keeps its previous value.
pub open spec fn checker_touched(row: int, col: int) -> bool {
    !(row % 2 == 0 || col % 2 == 0)
}

/// Color the sparse program writes into a touched cell.
pub open spec fn checker_pixel(row: int, col: int, frame: u64) -> (u8, u8, u8) {
    (((frame as int) % 256) as u8, (row * 17) as u8, (col * 17) as u8)
}

/// Byte `i` of the buffer after the sparse program ran for `frame` over a
/// buffer that previously held `prev`.
pub open spec fn checker_byte(prev: Seq<u8>, frame: u64, i: int) -> u8 {
    if checker_touched(row_of(i), col_of(i)) {
        channel(checker_pixel(row_of(i), col_of(i), frame), chan_of(i))
    } else {
        prev[i]
    }
}

/// The whole buffer after the sparse program ran for `frame`.
pub open spec fn checker_pixels(prev: Seq<u8>, frame: u64) -> Seq<u8> {
    Seq::new(PIXEL_BUFFER_SIZE as nat, |i: int| checker_byte(prev, frame, i))
}

/// Number of snapshots in the pre-baked looping sequence.
pub const PREBAKED_FRAMES: u64 = 6;

/// The pre-baked sequence advances one snapshot every this many frames.
pub const PREBAKED_SLOWDOWN: u64 = 16;

/// The solid color of pre-baked snapshot `k`.
pub open spec fn prebaked_palette(k: int) -> (u8, u8, u8) {
    if k == 0 {
        (255u8, 0u8, 0u8)
    } else if k == 1 {
        (255u8, 255u8, 0u8)
    } else if k == 2 {
        (0u8, 255u8, 0u8)
    } else if k == 3 {
        (0u8, 255u8, 255u8)
    } else if k == 4 {
        (0u8, 0u8, 255u8)
    } else {
        (255u8, 0u8, 255u8)
    }
}

/// Which snapshot of the pre-baked sequence frame `frame` shows.
pub open spec fn prebaked_index(frame: u64) -> int {
    ((frame as int) / (PREBAKED_SLOWDOWN as int)) % (PREBAKED_FRAMES as int)
}

/// Byte `i` of the buffer after the pre-baked program ran for `frame`.
pub open spec fn prebaked_byte(frame: u64, i: int) -> u8 {
    channel(prebaked_palette(prebaked_index(frame)), chan_of(i))
}

/// The whole buffer after the pre-baked program ran for `frame`.
pub open spec fn prebaked_pixels(frame: u64) -> Seq<u8> {
    Seq::new(PIXEL_BUFFER_SIZE as nat, |i: int| prebaked_byte(frame, i))
}

/// The pattern programs the module can run for a frame.
#[derive(Clone, Copy, Debug, PartialEq, Eq, Structural)]
pub enum Program {
    /// Diagonal rainbow covering every cell.
    Gradient,
    /// Sparse variant touching only cells with odd row and odd column.
    Checkerboard,
    /// Finite looping sequence of whole-buffer snapshots.
    Prebaked,
}

/// The selector repeats with this period of the frame counter.
pub const PROGRAM_PERIOD: u64 = 768;

/// Frames whose phase is below this run the diagonal rainbow.
pub const GRADIENT_PHASE_END: u64 = 256;

/// Frames whose phase is below this (and past the rainbow range) run the
/// sparse program; later phases run the pre-baked sequence.
pub const CHECKER_PHASE_END: u64 = 512;

/// The program selector: a pure function of `frame mod PROGRAM_PERIOD`
/// against the fixed sub-range boundaries.
pub open spec fn select_program_spec(frame: u64) -> Program {
    let phase = (frame as int) % (PROGRAM_PERIOD as int);
    if phase < GRADIENT_PHASE_END as int {
        Program::Gradient
    } else if phase < CHECKER_PHASE_END as int {
        Program::Checkerboard
    } else {
        Program::Prebaked
    }
}

/// Selects the pattern program for `frame`.
pub fn select_program(frame: u64) -> (p: Program)
    ensures
        p == select_program_spec(frame),
{
    let phase = frame % PROGRAM_PERIOD;
    if phase < GRADIENT_PHASE_END {
        Program::Gradient
    } else if phase < CHECKER_PHASE_END {
        Program::Checkerboard
    } else {
        Program::Prebaked
    }
}

/// The buffer after one `update` call for `frame` over previous contents
/// `prev`: the selected program's result.
pub open spec fn advance_spec(prev: Seq<u8>, frame: u64) -> Seq<u8> {
    match select_program_spec(frame) {
        Program::Gradient => gradient_pixels(frame),
        Program::Checkerboard => checker_pixels(prev, frame),
        Program::Prebaked => prebaked_pixels(frame),
    }
}

/// A guest-internal indexed access outside the buffer: the fatal fault the
/// module traps with.
#[derive(Clone, Copy, Debug, PartialEq, Eq, Structural)]
pub enum GuestFault {
    /// The offset was at or past the end of the pixel buffer.
    OutOfBounds,
}

/// Doubling a frame counter and reducing mod 256 can be done on the counter
/// reduced mod 128 first; the exec generators rely on this to avoid overflow.
proof fn lemma_hue_mod(s: int, f: int)
    requires
        0 <= s,
        0 <= f,
    ensures
        (s + (f % 128) * 2) % 256 == (s + f * 2) % 256,
{
    lemma_fundamental_div_mod(f, 128);
    let q = f / 128;
    let r = f % 128;
    assert(f * 2 == 256 * q + r * 2);
    lemma_mod_multiples_vanish(q, r * 2, 256);
    lemma_small_mod((r * 2) as nat, 256);
    assert((f * 2) % 256 == r * 2);
    lemma_add_mod_noop_right(s, f * 2, 256);
}

/// The reference compute module: a fixed-size pixel buffer plus the flag
/// that `init` ran. All entry points are deterministic in the frame counter
/// and the previous buffer contents.
pub struct ComputeModule {
    buf: Vec<u8>,
    ready: bool,
}

impl ComputeModule {
    /// The buffer has its fixed size.
    pub closed spec fn wf(&self) -> bool {
        self.buf@.len() == PIXEL_BUFFER_SIZE as nat
    }

    /// The current pixel buffer contents.
    pub closed spec fn pixels(&self) -> Seq<u8> {
        self.buf@
    }

    /// Whether `init` has run.
    pub closed spec fn initialized(&self) -> bool {
        self.ready
    }

    /// A fresh module: zeroed static buffer, `init` not yet run.
    pub fn new() -> (m: ComputeModule)
        ensures
            m.wf(),
            !m.initialized(),
            m.pixels() == zero_pixels(),
    {
        ComputeModule { buf: zeroed_buffer(), ready: false }
    }

    /// Zeroes the buffer and marks the module ready; must run before the
    /// first `update`.
    pub fn init(&mut self)
        requires
            old(self).wf(),
        ensures
            final(self).wf(),
            final(self).initialized(),
            final(self).pixels() == zero_pixels(),
    {
        let mut i: usize = 0;
        while i < PIXEL_BUFFER_SIZE
            invariant
                i <= PIXEL_BUFFER_SIZE,
                self.buf@.len() == PIXEL_BUFFER_SIZE as nat,
                forall|j: int| 0 <= j < i ==> self.buf@[j] == 0u8,
            decreases PIXEL_BUFFER_SIZE as int - i,
        {
            self.buf.set(i, 0u8);
            i = i + 1;
        }
        self.ready = true;
        proof {
            assert(self.buf@ =~= zero_pixels());
        }
    }

    /// Diagnostic indexed write into the buffer. Faults, changing nothing,
    /// exactly when `offset` is at or past the buffer's end; otherwise the
    /// low byte of `value` replaces the byte at `offset`.
    pub fn mem_write(&mut self, offset: u32, value: u32) -> (r: Result<(), GuestFault>)
        requires
            old(self).wf(),
        ensures
            final(self).wf(),
            final(self).initialized() == old(self).initialized(),
            r is Ok <==> offset < PIXEL_BUFFER_SIZE as u32,
            r is Ok ==> final(self).pixels() == old(self).pixels().update(
                offset as int,
                value as u8,
            ),
            r is Err ==> final(self).pixels() == old(self).pixels(),
    {
        if (offset as usize) >= PIXEL_BUFFER_SIZE {
            return Err(GuestFault::OutOfBounds);
        }
        self.buf.set(offset as usize, value as u8);
        Ok(())
    }

    /// Diagnostic indexed read from the buffer. Faults exactly when `offset`
    /// is at or past the buffer's end; otherwise returns the byte at
    /// `offset`, widened.
    pub fn mem_read(&self, offset: u32) -> (r: Result<u32, GuestFault>)
        requires
            self.wf(),
        ensures
            r is Ok <==> offset < PIXEL_BUFFER_SIZE as u32,
            r is Ok ==> r->Ok_0 == self.pixels()[offset as int] as u32,
    {
        if (offset as usize) >= PIXEL_BUFFER_SIZE {
            return Err(GuestFault::OutOfBounds);
        }
        Ok(self.buf[offset as usize] as u32)
    }

    /// Runs the diagonal-rainbow program: every cell gets the hue
    /// `((row + col) * 8 + frame * 2) mod 256` through the sector color map.
    pub fn run_gradient(&mut self, frame: u64)
        requires
            old(self).wf(),
        ensures
            final(self).wf(),
            final(self).initialized() == old(self).initialized(),
            final(self).pixels() == gradient_pixels(frame),
    {
        let fm: u64 = (frame % 128) * 2;
        let mut row: usize = 0;
        while row < PIXEL_ROWS
            invariant
                row <= PIXEL_ROWS,
                self.buf@.len() == PIXEL_BUFFER_SIZE as nat,
                self.ready == old(self).ready,
                fm == (frame as int % 128) * 2,
                forall|i: int|
                    0 <= i < row * 48 ==> self.buf@[i] == gradient_byte(frame, i),
            decreases PIXEL_ROWS as int - row,
        {
            let mut col: usize = 0;
            while col < PIXEL_COLS
                invariant
                    row < PIXEL_ROWS,
                    col <= PIXEL_COLS,
                    self.buf@.len() == PIXEL_BUFFER_SIZE as nat,
                    self.ready == old(self).ready,
                    fm == (frame as int % 128) * 2,
                    forall|i: int|
                        0 <= i < row * 48 + col * 3 ==> self.buf@[i] == gradient_byte(frame, i),
                decreases PIXEL_COLS as int - col,
            {
                let hue64: u64 = (((row + col) * 8) as u64 + fm) % 256;
                let rgb = hsv_to_rgb(hue64 as u8);
                proof {
                    lemma_hue_mod((row + col) as int * 8, frame as int);
                    assert(hue64 as u8 == gradient_hue(row as int, col as int, frame));
                }
                let base = byte_offset(row, col, 0);
                self.buf.set(base, rgb.0);
                self.buf.set(base + 1, rgb.1);
                self.buf.set(base + 2, rgb.2);
                proof {
                    assert forall|i: int| 0 <= i < row * 48 + (col + 1) * 3 implies self.buf@[i]
                        == gradient_byte(frame, i) by {
                        if i >= row * 48 + col * 3 {
                            crate::pixel::lemma_offset_decomposition(
                                row as int,
                                col as int,
                                i - (row * 48 + col * 3),
                            );
                        }
                    }
                }
                col = col + 1;
            }
            row = row + 1;
        }
        proof {
            assert(self.buf@ =~= gradient_pixels(frame));
        }
    }

    /// Runs the sparse program: cells with odd row and odd column get the
    /// frame-indexed color; every other cell keeps its previous value.
    pub fn run_checkerboard(&mut self, frame: u64)
        requires
            old(self).wf(),
        ensures
            final(self).wf(),
            final(self).initialized() == old(self).initialized(),
            final(self).pixels() == checker_pixels(old(self).pixels(), frame),
    {
        let ghost prev = self.buf@;
        let red: u8 = (frame % 256) as u8;
        let mut row: usize = 0;
        while row < PIXEL_ROWS
            invariant
                row <= PIXEL_ROWS,
                self.buf@.len() == PIXEL_BUFFER_SIZE as nat,
                self.ready == old(self).ready,
                prev == old(self).buf@,
                prev.len() == PIXEL_BUFFER_SIZE as nat,
                red == (frame as int) % 256,
                forall|i: int|
                    0 <= i < row * 48 ==> self.buf@[i] == checker_byte(prev, frame, i),
                forall|i: int|
                    row * 48 <= i < PIXEL_BUFFER_SIZE as int ==> self.buf@[i] == prev[i],
            decreases PIXEL_ROWS as int - row,
        {
            let mut col: usize = 0;
            while col < PIXEL_COLS
                invariant
                    row < PIXEL_ROWS,
                    col <= PIXEL_COLS,
                    self.buf@.len() == PIXEL_BUFFER_SIZE as nat,
                    self.ready == old(self).ready,
                    prev == old(self).buf@,
                    prev.len() == PIXEL_BUFFER_SIZE as nat,
                    red == (frame as int) % 256,
                    forall|i: int|
                        0 <= i < row * 48 + col * 3 ==> self.buf@[i] == checker_byte(
                            prev,
                            frame,
                            i,
                        ),
                    forall|i: int|
                        row * 48 + col * 3 <= i < PIXEL_BUFFER_SIZE as int ==> self.buf@[i]
                            == prev[i],
                decreases PIXEL_COLS as int - col,
            {
                if row % 2 == 1 && col % 2 == 1 {
                    let base = byte_offset(row, col, 0);
                    self.buf.set(base, red);
                    self.buf.set(base + 1, (row * 17) as u8);
                    self.buf.set(base + 2, (col * 17) as u8);
                }
                proof {
                    assert forall|i: int| 0 <= i < row * 48 + (col + 1) * 3 implies self.buf@[i]
                        == checker_byte(prev, frame, i) by {
                        if i >= row * 48 + col * 3 {
                            crate::pixel::lemma_offset_decomposition(
                                row as int,
                                col as int,
                                i - (row * 48 + col * 3),
                            );
                        }
                    }
                }
                col = col + 1;
            }
            row = row + 1;
        }
        proof {
            assert(self.buf@ =~= checker_pixels(prev, frame));
        }
    }

    /// Runs the pre-baked program: the whole buffer becomes snapshot
    /// `(frame / PREBAKED_SLOWDOWN) mod PREBAKED_FRAMES` of the sequence.
    pub fn run_prebaked(&mut self, frame: u64)
        requires
            old(self).wf(),
        ensures
            final(self).wf(),
            final(self).initialized() == old(self).initialized(),
            final(self).pixels() == prebaked_pixels(frame),
    {
        let k = (frame / PREBAKED_SLOWDOWN) % PREBAKED_FRAMES;
        let rgb: (u8, u8, u8) = if k == 0 {
            (255, 0, 0)
        } else if k == 1 {
            (255, 255, 0)
        } else if k == 2 {
            (0, 255, 0)
        } else if k == 3 {
            (0, 255, 255)
        } else if k == 4 {
            (0, 0, 255)
        } else {
            (255, 0, 255)
        };
        proof {
            assert(rgb == prebaked_palette(prebaked_index(frame)));
        }
        let mut row: usize = 0;
        while row < PIXEL_ROWS
            invariant
                row <= PIXEL_ROWS,
                self.buf@.len() == PIXEL_BUFFER_SIZE as nat,
                self.ready == old(self).ready,
                rgb == prebaked_palette(prebaked_index(frame)),
                forall|i: int|
                    0 <= i < row * 48 ==> self.buf@[i] == prebaked_byte(frame, i),
            decreases PIXEL_ROWS as int - row,
        {
            let mut col: usize = 0;
            while col < PIXEL_COLS
                invariant
                    row < PIXEL_ROWS,
                    col <= PIXEL_COLS,
                    self.buf@.len() == PIXEL_BUFFER_SIZE as nat,
                    self.ready == old(self).ready,
                    rgb == prebaked_palette(prebaked_index(frame)),
                    forall|i: int|
                        0 <= i < row * 48 + col * 3 ==> self.buf@[i] == prebaked_byte(frame, i),
                decreases PIXEL_COLS as int - col,
            {
                let base = byte_offset(row, col, 0);
                self.buf.set(base, rgb.0);
                self.buf.set(base + 1, rgb.1);
                self.buf.set(base + 2, rgb.2);
                proof {
                    assert forall|i: int| 0 <= i < row * 48 + (col + 1) * 3 implies self.buf@[i]
                        == prebaked_byte(frame, i) by {
                        if i >= row * 48 + col * 3 {
                            crate::pixel::lemma_offset_decomposition(
                                row as int,
                                col as int,
                                i - (row * 48 + col * 3),
                            );
                        }
                    }
                }
                col = col + 1;
            }
            row = row + 1;
        }
        proof {
            assert(self.buf@ =~= prebaked_pixels(frame));
        }
    }

    /// The per-frame entry point: selects the program for `frame` and runs
    /// it. The result is `advance_spec` of the previous contents and the
    /// frame counter alone.
    pub fn update(&mut self, frame: u64)
        requires
            old(self).wf(),
            old(self).initialized(),
        ensures
            final(self).wf(),
            final(self).initialized(),
            final(self).pixels() == advance_spec(old(self).pixels(), frame),
    {
        match select_program(frame) {
            Program::Gradient => self.run_gradient(frame),
            Program::Checkerboard => self.run_checkerboard(frame),
            Program::Prebaked => self.run_prebaked(frame),
        }
    }

    /// Read-only access to the whole buffer.
    pub fn pixel_bytes(&self) -> (r: &Vec<u8>)
        ensures
            r@ == self.pixels(),
    {
        &self.buf
    }

    /// Whether `init` has run, as an exec query.
    pub fn is_initialized(&self) -> (r: bool)
        ensures
            r == self.initialized(),
    {
        self.ready
    }
}

/// A well-formed module's buffer has exactly `PIXEL_BUFFER_SIZE` bytes;
/// callers need this to use the indexed contracts of `mem_read` and
/// `mem_write`.
pub proof fn lemma_wf_len(m: ComputeModule)
    requires
        m.wf(),
    ensures
        m.pixels().len() == PIXEL_BUFFER_SIZE as nat,
{
}

/// One update always produces a full buffer: whatever program the frame
/// selects and whatever the buffer held before, the result has exactly
/// `PIXEL_BUFFER_SIZE` bytes — never a short frame.
pub proof fn lemma_advance_full_buffer(prev: Seq<u8>, frame: u64)
    ensures
        advance_spec(prev, frame).len() == PIXEL_BUFFER_SIZE as nat,
{
}

/// Determinism: two modules holding identical buffers show byte-identical
/// buffers after an update with the same frame counter; in particular two
/// freshly initialised modules do.
pub proof fn lemma_advance_deterministic(a: ComputeModule, b: ComputeModule, frame: u64)
    requires
        a.pixels() == b.pixels(),
    ensures
        advance_spec(a.pixels(), frame) == advance_spec(b.pixels(), frame),
{
}

/// The rainbow and pre-baked programs cover every cell, so for frames that
/// select them the update result does not depend on the previous contents
/// at all.
pub proof fn lemma_advance_ignores_history(prev1: Seq<u8>, prev2: Seq<u8>, frame: u64)
    requires
        select_program_spec(frame) != Program::Checkerboard,
    ensures
        advance_spec(prev1, frame) == advance_spec(prev2, frame),
{
}

/// The sparse program leaves every cell with an even row or an even column
/// exactly as it was: each of its three channel bytes keeps its previous
/// value.
pub proof fn lemma_checkerboard_preserves_untouched(
    prev: Seq<u8>,
    frame: u64,
    row: int,
    col: int,
    chan: int,
)
    requires
        prev.len() == PIXEL_BUFFER_SIZE as nat,
        0 <= row < PIXEL_ROWS as int,
        0 <= col < PIXEL_COLS as int,
        0 <= chan < PIXEL_CHANNELS as int,
        row % 2 == 0 || col % 2 == 0,
    ensures
        checker_pixels(prev, frame)[pixel_offset(row, col) + chan] == prev[pixel_offset(
            row,
            col,
        ) + chan],
{
    crate::pixel::lemma_offset_decomposition(row, col, chan);
}

/// The pre-baked sequence loops: stepping the frame counter by the sequence
/// length times the slowdown factor shows the same snapshot again.
pub proof fn lemma_prebaked_period(frame: u64)
    requires
        frame + PREBAKED_FRAMES * PREBAKED_SLOWDOWN <= u64::MAX,
    ensures
        prebaked_pixels((frame + PREBAKED_FRAMES * PREBAKED_SLOWDOWN) as u64) == prebaked_pixels(
            frame,
        ),
{
    let f = frame as int;
    lemma_hoist_over_denominator(f, 6, 16);
    assert((f + 96) / 16 == f / 16 + 6);
    lemma_mod_add_multiples_vanish(f / 16, 6);
    assert(((f + 96) / 16) % 6 == (f / 16) % 6);
    assert(prebaked_index((frame + 96) as u64) == prebaked_index(frame));
    assert(prebaked_pixels((frame + 96) as u64) =~= prebaked_pixels(frame));
}

} // verus!
