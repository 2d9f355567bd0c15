//! Tests of the host execution bridge against real compiled guest modules:
//! the three buffer-ownership conventions, the load-time error taxonomy,
//! start-once guarding, bounds-checked snapshot capture and last-good-frame
//! semantics.

use pixel_bridge::bridge::{BufferConvention, FaultError, LoadError, ModuleHandle};
use pixel_bridge::pixel::PIXEL_BUFFER_SIZE;

fn compile(wat_text: &str) -> Vec<u8> {
    wat::parse_str(wat_text).expect("test module should assemble")
}

/// Convention (a): the guest owns a stable buffer and exports a locator.
/// `init` writes a marker past the bytes `update` touches, so a snapshot
/// shows both calls landed in the guest's buffer.
const GUEST_OWNED: &str = r#"
(module
  (memory (export "memory") 1)
  (func (export "init")
    (i32.store8 (i32.const 1026) (i32.const 7)))
  (func (export "buffer_ptr") (result i32)
    (i32.const 1024))
  (func (export "update") (param i64)
    (i32.store8 (i32.const 1024) (i32.wrap_i64 (local.get 0)))
    (i32.store8 (i32.const 1025) (i32.const 42))))
"#;

/// Convention (b): `update` takes the host-chosen buffer address.
const HOST_PROVIDED: &str = r#"
(module
  (memory (export "memory") 1)
  (func (export "init"))
  (func (export "update") (param i64 i32)
    (i32.store8 (local.get 1) (i32.wrap_i64 (local.get 0)))
    (i32.store8 (i32.add (local.get 1) (i32.const 1)) (i32.const 99))))
"#;

/// Convention (c): `update` returns the buffer address for this frame.
const PER_FRAME: &str = r#"
(module
  (memory (export "memory") 1)
  (func (export "init"))
  (func (export "update") (param i64) (result i32)
    (i32.store8 (i32.const 2048) (i32.wrap_i64 (local.get 0)))
    (i32.const 2048)))
"#;

/// Convention (c) guest that points the host at the frame counter itself,
/// used to probe the bridge's bounds check near the end of its one page.
const ADDR_FROM_FRAME: &str = r#"
(module
  (memory (export "memory") 1)
  (func (export "init"))
  (func (export "update") (param i64) (result i32)
    (i32.wrap_i64 (local.get 0))))
"#;

/// A convention (a) guest implementing the same diagonal rainbow as the
/// reference compute module: hue `((x + y) * 8 + frame * 2) mod 256` through
/// the six-sector color map, row-major RGB at offset 1024.
const RAINBOW_GUEST: &str = r#"
(module
  (memory (export "memory") 1)
  (func (export "init"))
  (func (export "buffer_ptr") (result i32) (i32.const 1024))
  (func (export "update") (param $frame i64)
    (local $x i32) (local $y i32) (local $hue i32) (local $sector i32)
    (local $off i32) (local $r i32) (local $g i32) (local $b i32) (local $ptr i32)
    (local.set $y (i32.const 0))
    (block $done_y
      (loop $loop_y
        (br_if $done_y (i32.ge_u (local.get $y) (i32.const 16)))
        (local.set $x (i32.const 0))
        (block $done_x
          (loop $loop_x
            (br_if $done_x (i32.ge_u (local.get $x) (i32.const 16)))
            (local.set $hue
              (i32.wrap_i64
                (i64.rem_u
                  (i64.add
                    (i64.extend_i32_u
                      (i32.mul (i32.add (local.get $x) (local.get $y)) (i32.const 8)))
                    (i64.mul (local.get $frame) (i64.const 2)))
                  (i64.const 256))))
            (local.set $sector (i32.div_u (local.get $hue) (i32.const 43)))
            (local.set $off
              (i32.mul (i32.rem_u (local.get $hue) (i32.const 43)) (i32.const 6)))
            (local.set $r (i32.const 255))
            (local.set $g (i32.const 0))
            (local.set $b (i32.sub (i32.const 255) (local.get $off)))
            (if (i32.eq (local.get $sector) (i32.const 0))
              (then (local.set $g (local.get $off)) (local.set $b (i32.const 0))))
            (if (i32.eq (local.get $sector) (i32.const 1))
              (then (local.set $r (i32.sub (i32.const 255) (local.get $off)))
                    (local.set $g (i32.const 255)) (local.set $b (i32.const 0))))
            (if (i32.eq (local.get $sector) (i32.const 2))
              (then (local.set $r (i32.const 0)) (local.set $g (i32.const 255))
                    (local.set $b (local.get $off))))
            (if (i32.eq (local.get $sector) (i32.const 3))
              (then (local.set $r (i32.const 0))
                    (local.set $g (i32.sub (i32.const 255) (local.get $off)))
                    (local.set $b (i32.const 255))))
            (if (i32.eq (local.get $sector) (i32.const 4))
              (then (local.set $r (local.get $off)) (local.set $g (i32.const 0))
                    (local.set $b (i32.const 255))))
            (local.set $ptr
              (i32.add (i32.const 1024)
                (i32.mul
                  (i32.add (i32.mul (local.get $y) (i32.const 16)) (local.get $x))
                  (i32.const 3))))
            (i32.store8 (local.get $ptr) (local.get $r))
            (i32.store8 (i32.add (local.get $ptr) (i32.const 1)) (local.get $g))
            (i32.store8 (i32.add (local.get $ptr) (i32.const 2)) (local.get $b))
            (local.set $x (i32.add (local.get $x) (i32.const 1)))
            (br $loop_x)))
        (local.set $y (i32.add (local.get $y) (i32.const 1)))
        (br $loop_y)))))
"#;

/// A guest whose update always traps.
const TRAPPING_UPDATE: &str = r#"
(module
  (memory (export "memory") 1)
  (func (export "init"))
  (func (export "buffer_ptr") (result i32) (i32.const 0))
  (func (export "update") (param i64)
    unreachable))
"#;

#[test]
fn guest_owned_convention_round_trip() {
    let wasm = compile(GUEST_OWNED);
    let mut h = ModuleHandle::load(&wasm).expect("should load");
    assert_eq!(h.convention(), BufferConvention::GuestOwned);
    assert!(!h.started());
    h.start().expect("start should succeed");
    assert!(h.started());
    let snap = h.advance_frame(5).expect("advance should succeed");
    assert_eq!(snap.len(), PIXEL_BUFFER_SIZE);
    assert_eq!(snap[0], 5);
    assert_eq!(snap[1], 42);
    assert_eq!(snap[2], 7); // written by init, still visible
    assert!(snap[3..].iter().all(|&b| b == 0));
    assert_eq!(h.snapshot().as_slice(), snap.as_slice());
}

#[test]
fn host_provided_convention_round_trip() {
    let wasm = compile(HOST_PROVIDED);
    let mut h = ModuleHandle::load(&wasm).expect("should load");
    assert_eq!(h.convention(), BufferConvention::HostProvided);
    h.start().expect("start should succeed");
    let snap = h.advance_frame(17).expect("advance should succeed");
    assert_eq!(snap.len(), PIXEL_BUFFER_SIZE);
    assert_eq!(snap[0], 17);
    assert_eq!(snap[1], 99);
    assert!(snap[2..].iter().all(|&b| b == 0));
}

#[test]
fn per_frame_convention_round_trip() {
    let wasm = compile(PER_FRAME);
    let mut h = ModuleHandle::load(&wasm).expect("should load");
    assert_eq!(h.convention(), BufferConvention::PerFrameResolved);
    h.start().expect("start should succeed");
    let snap = h.advance_frame(200).expect("advance should succeed");
    assert_eq!(snap.len(), PIXEL_BUFFER_SIZE);
    assert_eq!(snap[0], 200);
}

#[test]
fn snapshot_before_first_advance_is_black() {
    let wasm = compile(GUEST_OWNED);
    let h = ModuleHandle::load(&wasm).expect("should load");
    assert_eq!(h.snapshot().len(), PIXEL_BUFFER_SIZE);
    assert!(h.snapshot().iter().all(|&b| b == 0));
}

#[test]
fn advance_before_start_is_rejected() {
    let wasm = compile(GUEST_OWNED);
    let mut h = ModuleHandle::load(&wasm).expect("should load");
    assert_eq!(h.advance_frame(0), Err(FaultError::NotStarted));
}

#[test]
fn start_runs_only_once() {
    let wasm = compile(GUEST_OWNED);
    let mut h = ModuleHandle::load(&wasm).expect("should load");
    assert_eq!(h.start(), Ok(()));
    assert_eq!(h.start(), Err(FaultError::AlreadyStarted));
    // the rejected second start left the handle usable
    let snap = h.advance_frame(1).expect("advance should succeed");
    assert_eq!(snap[0], 1);
}

#[test]
fn advance_is_deterministic_across_fresh_instances() {
    let wasm = compile(GUEST_OWNED);
    let mut a = ModuleHandle::load(&wasm).expect("should load");
    let mut b = ModuleHandle::load(&wasm).expect("should load");
    a.start().expect("start should succeed");
    b.start().expect("start should succeed");
    let snap_a = a.advance_frame(123).expect("advance should succeed");
    let snap_b = b.advance_frame(123).expect("advance should succeed");
    assert_eq!(snap_a, snap_b);
}

#[test]
fn read_at_end_of_memory_succeeds() {
    // one page of 65536 bytes: the last full buffer starts at 64768
    let wasm = compile(ADDR_FROM_FRAME);
    let mut h = ModuleHandle::load(&wasm).expect("should load");
    h.start().expect("start should succeed");
    let snap = h.advance_frame(64768).expect("in-bounds read should succeed");
    assert_eq!(snap.len(), PIXEL_BUFFER_SIZE);
}

#[test]
fn read_past_end_of_memory_is_out_of_bounds() {
    let wasm = compile(ADDR_FROM_FRAME);
    let mut h = ModuleHandle::load(&wasm).expect("should load");
    h.start().expect("start should succeed");
    assert_eq!(h.advance_frame(64769), Err(FaultError::OutOfBounds));
    assert_eq!(h.advance_frame(u32::MAX as u64), Err(FaultError::OutOfBounds));
}

#[test]
fn wasm_rainbow_guest_matches_reference_model() {
    let wasm = compile(RAINBOW_GUEST);
    let mut h = ModuleHandle::load(&wasm).expect("should load");
    h.start().expect("start should succeed");
    for frame in [0u64, 7, 123, 130, 10_000_000_000] {
        let snap = h.advance_frame(frame).expect("advance should succeed");
        let mut reference = pixel_bridge::guest::ComputeModule::new();
        reference.init();
        reference.run_gradient(frame);
        assert_eq!(snap.as_slice(), reference.pixel_bytes().as_slice());
    }
}

#[test]
fn guest_owned_buffer_at_end_of_memory_succeeds() {
    let wasm = compile(
        r#"(module
             (memory (export "memory") 1)
             (func (export "init"))
             (func (export "buffer_ptr") (result i32) (i32.const 64768))
             (func (export "update") (param i64)))"#,
    );
    let mut h = ModuleHandle::load(&wasm).expect("should load");
    assert_eq!(h.convention(), BufferConvention::GuestOwned);
    h.start().expect("start should succeed");
    let snap = h.advance_frame(0).expect("in-bounds read should succeed");
    assert_eq!(snap.len(), PIXEL_BUFFER_SIZE);
}

#[test]
fn guest_owned_buffer_past_end_of_memory_is_out_of_bounds() {
    let wasm = compile(
        r#"(module
             (memory (export "memory") 1)
             (func (export "init"))
             (func (export "buffer_ptr") (result i32) (i32.const 64769))
             (func (export "update") (param i64)))"#,
    );
    let mut h = ModuleHandle::load(&wasm).expect("should load");
    h.start().expect("start should succeed");
    assert_eq!(h.advance_frame(0), Err(FaultError::OutOfBounds));
}

#[test]
fn fault_preserves_last_good_snapshot() {
    let wasm = compile(ADDR_FROM_FRAME);
    let mut h = ModuleHandle::load(&wasm).expect("should load");
    h.start().expect("start should succeed");
    let good = h.advance_frame(0).expect("advance should succeed");
    assert_eq!(h.advance_frame(64769), Err(FaultError::OutOfBounds));
    assert_eq!(h.snapshot().as_slice(), good.as_slice());
}

#[test]
fn trapping_update_reports_trap_and_keeps_snapshot() {
    let wasm = compile(TRAPPING_UPDATE);
    let mut h = ModuleHandle::load(&wasm).expect("should load");
    h.start().expect("start should succeed");
    assert_eq!(h.advance_frame(3), Err(FaultError::Trap));
    assert!(h.snapshot().iter().all(|&b| b == 0));
}

#[test]
fn garbage_bytes_are_malformed() {
    assert!(matches!(
        ModuleHandle::load(&[0x00, 0x61, 0x73, 0x6D, 0xFF]),
        Err(LoadError::Malformed)
    ));
    assert!(matches!(ModuleHandle::load(&[]), Err(LoadError::Malformed)));
}

#[test]
fn missing_memory_export_is_rejected() {
    let wasm = compile(
        r#"(module
             (func (export "init"))
             (func (export "update") (param i64)))"#,
    );
    assert!(matches!(
        ModuleHandle::load(&wasm),
        Err(LoadError::MissingExport)
    ));
}

#[test]
fn missing_init_export_is_rejected() {
    let wasm = compile(
        r#"(module
             (memory (export "memory") 1)
             (func (export "update") (param i64)))"#,
    );
    assert!(matches!(
        ModuleHandle::load(&wasm),
        Err(LoadError::MissingExport)
    ));
}

#[test]
fn missing_update_export_is_rejected() {
    let wasm = compile(
        r#"(module
             (memory (export "memory") 1)
             (func (export "init")))"#,
    );
    assert!(matches!(
        ModuleHandle::load(&wasm),
        Err(LoadError::MissingExport)
    ));
}

#[test]
fn wrong_init_signature_is_rejected() {
    let wasm = compile(
        r#"(module
             (memory (export "memory") 1)
             (func (export "init") (param i32))
             (func (export "update") (param i64)))"#,
    );
    assert!(matches!(
        ModuleHandle::load(&wasm),
        Err(LoadError::SignatureMismatch)
    ));
}

#[test]
fn wrong_locator_signature_is_rejected() {
    let wasm = compile(
        r#"(module
             (memory (export "memory") 1)
             (func (export "init"))
             (func (export "buffer_ptr") (param i32) (result i32) (local.get 0))
             (func (export "update") (param i64)))"#,
    );
    assert!(matches!(
        ModuleHandle::load(&wasm),
        Err(LoadError::SignatureMismatch)
    ));
}

#[test]
fn update_matching_no_convention_is_rejected() {
    // an update of (i64) -> () without a locator export fits none of the
    // three ownership conventions
    let wasm = compile(
        r#"(module
             (memory (export "memory") 1)
             (func (export "init"))
             (func (export "update") (param i64)))"#,
    );
    assert!(matches!(
        ModuleHandle::load(&wasm),
        Err(LoadError::SignatureMismatch)
    ));
}
