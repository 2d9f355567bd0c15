//! A host/guest pixel-animation protocol: a deterministic compute module fills
//! a fixed 16x16 RGB grid for each animation frame, and an execution bridge
//! loads a compiled module into an isolated interpreter, drives its per-frame
//! entry point, and copies the resulting pixel buffer out of the guest's
//! linear memory with every access bounds-checked.

pub mod bridge;
pub mod guest;
pub mod pixel;
pub mod wasm_env;
