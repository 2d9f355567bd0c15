//! Tests of the reference compute module: bounds-checked diagnostic access,
//! the three pattern programs, the program selector and determinism.

use pixel_bridge::guest::{select_program, ComputeModule, GuestFault, Program};
use pixel_bridge::pixel::{hsv_to_rgb, PIXEL_BUFFER_SIZE};

fn offset(row: usize, col: usize) -> usize {
    (row * 16 + col) * 3
}

#[test]
fn fresh_module_is_zeroed_and_uninitialized() {
    let m = ComputeModule::new();
    assert!(!m.is_initialized());
    let bytes = m.pixel_bytes();
    assert_eq!(bytes.len(), PIXEL_BUFFER_SIZE);
    assert!(bytes.iter().all(|&b| b == 0));
}

#[test]
fn init_zeroes_and_marks_ready() {
    let mut m = ComputeModule::new();
    assert_eq!(m.mem_write(10, 0x55), Ok(()));
    m.init();
    assert!(m.is_initialized());
    assert!(m.pixel_bytes().iter().all(|&b| b == 0));
}

#[test]
fn boundary_read_write() {
    let mut m = ComputeModule::new();
    assert_eq!(m.mem_write(767, 0xAB), Ok(()));
    assert_eq!(m.mem_write(768, 0), Err(GuestFault::OutOfBounds));
    assert_eq!(m.mem_read(767), Ok(0xAB));
    assert_eq!(m.mem_read(768), Err(GuestFault::OutOfBounds));
    assert_eq!(m.mem_read(0xFFFF_FFFF), Err(GuestFault::OutOfBounds));
}

#[test]
fn mem_write_stores_low_byte() {
    let mut m = ComputeModule::new();
    assert_eq!(m.mem_write(0, 0x1FF), Ok(()));
    assert_eq!(m.mem_read(0), Ok(0xFF));
}

#[test]
fn failed_write_changes_nothing() {
    let mut m = ComputeModule::new();
    assert_eq!(m.mem_write(0, 9), Ok(()));
    assert_eq!(m.mem_write(100_000, 3), Err(GuestFault::OutOfBounds));
    assert_eq!(m.mem_read(0), Ok(9));
}

#[test]
fn hue_to_rgb_closed_form() {
    assert_eq!(hsv_to_rgb(0), (255, 0, 0));
    assert_eq!(hsv_to_rgb(1), (255, 6, 0));
    assert_eq!(hsv_to_rgb(42), (255, 252, 0));
    assert_eq!(hsv_to_rgb(43), (255, 255, 0));
    assert_eq!(hsv_to_rgb(86), (0, 255, 0));
    assert_eq!(hsv_to_rgb(129), (0, 255, 255));
    assert_eq!(hsv_to_rgb(172), (0, 0, 255));
    assert_eq!(hsv_to_rgb(255), (255, 0, 15));
}

#[test]
fn gradient_at_frame_zero() {
    let mut m = ComputeModule::new();
    m.init();
    assert_eq!(select_program(0), Program::Gradient);
    m.update(0);
    let bytes = m.pixel_bytes();
    // pixel (0, 0): hue 0, sector 0, offset 0 -> pure red
    assert_eq!(&bytes[0..3], &[255, 0, 0]);
    // pixel (0, 1): hue 8 -> sector 0, offset 48
    assert_eq!(&bytes[offset(0, 1)..offset(0, 1) + 3], &[255, 48, 0]);
    // pixel (1, 0) equals pixel (0, 1): hue depends on row + col
    assert_eq!(&bytes[offset(1, 0)..offset(1, 0) + 3], &[255, 48, 0]);
}

#[test]
fn gradient_moves_with_frame() {
    let mut m = ComputeModule::new();
    m.init();
    m.update(1);
    // pixel (0, 0): hue 2 -> sector 0, offset 12
    assert_eq!(&m.pixel_bytes()[0..3], &[255, 12, 0]);
}

#[test]
fn checkerboard_touches_only_odd_odd_cells() {
    let mut m = ComputeModule::new();
    m.init();
    // seed some cells the sparse program must not touch
    assert_eq!(m.mem_write(offset(0, 0) as u32, 123), Ok(()));
    assert_eq!(m.mem_write(offset(2, 3) as u32, 77), Ok(()));
    assert_eq!(m.mem_write(offset(3, 2) as u32 + 2, 66), Ok(()));
    m.run_checkerboard(5);
    let bytes = m.pixel_bytes();
    // untouched: even row or even column
    assert_eq!(bytes[offset(0, 0)], 123);
    assert_eq!(bytes[offset(2, 3)], 77);
    assert_eq!(bytes[offset(3, 2) + 2], 66);
    // touched: odd row and odd column get (frame % 256, row * 17, col * 17)
    assert_eq!(&bytes[offset(1, 1)..offset(1, 1) + 3], &[5, 17, 17]);
    assert_eq!(&bytes[offset(3, 5)..offset(3, 5) + 3], &[5, 51, 85]);
    assert_eq!(&bytes[offset(15, 15)..offset(15, 15) + 3], &[5, 255, 255]);
}

#[test]
fn update_dispatches_to_checkerboard() {
    let mut a = ComputeModule::new();
    let mut b = ComputeModule::new();
    a.init();
    b.init();
    assert_eq!(select_program(300), Program::Checkerboard);
    a.update(300);
    b.run_checkerboard(300);
    assert_eq!(a.pixel_bytes(), b.pixel_bytes());
}

#[test]
fn prebaked_cycles_through_six_snapshots() {
    let palette: [[u8; 3]; 6] = [
        [255, 0, 0],
        [255, 255, 0],
        [0, 255, 0],
        [0, 255, 255],
        [0, 0, 255],
        [255, 0, 255],
    ];
    let mut m = ComputeModule::new();
    m.init();
    for (k, color) in palette.iter().enumerate() {
        m.run_prebaked((k as u64) * 16);
        let bytes = m.pixel_bytes();
        assert_eq!(bytes.len(), PIXEL_BUFFER_SIZE);
        for px in bytes.chunks(3) {
            assert_eq!(px, color);
        }
    }
    // one full period later the sequence repeats from its first snapshot
    m.run_prebaked(96);
    for px in m.pixel_bytes().chunks(3) {
        assert_eq!(px, &palette[0]);
    }
}

#[test]
fn prebaked_holds_each_snapshot_for_slowdown_frames() {
    let mut a = ComputeModule::new();
    let mut b = ComputeModule::new();
    a.init();
    b.init();
    a.run_prebaked(16);
    b.run_prebaked(31);
    assert_eq!(a.pixel_bytes(), b.pixel_bytes());
    b.run_prebaked(32);
    assert_ne!(a.pixel_bytes(), b.pixel_bytes());
}

#[test]
fn update_dispatches_to_prebaked() {
    let mut m = ComputeModule::new();
    m.init();
    assert_eq!(select_program(512), Program::Prebaked);
    m.update(512);
    // (512 / 16) % 6 == 2 -> solid green
    for px in m.pixel_bytes().chunks(3) {
        assert_eq!(px, &[0, 255, 0]);
    }
}

#[test]
fn selector_sub_ranges() {
    assert_eq!(select_program(0), Program::Gradient);
    assert_eq!(select_program(255), Program::Gradient);
    assert_eq!(select_program(256), Program::Checkerboard);
    assert_eq!(select_program(511), Program::Checkerboard);
    assert_eq!(select_program(512), Program::Prebaked);
    assert_eq!(select_program(767), Program::Prebaked);
    assert_eq!(select_program(768), Program::Gradient);
    assert_eq!(select_program(768 + 256), Program::Checkerboard);
}

#[test]
fn update_is_deterministic_in_the_frame_counter() {
    for frame in [0u64, 9, 300, 512, 99_999] {
        let mut a = ComputeModule::new();
        let mut b = ComputeModule::new();
        a.init();
        b.init();
        a.update(frame);
        b.update(frame);
        assert_eq!(a.pixel_bytes(), b.pixel_bytes());
    }
}
