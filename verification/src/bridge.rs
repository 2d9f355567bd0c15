//! The host execution bridge: loads a compiled guest module into an isolated
//! wasmi environment, resolves and type-checks its entry points once, drives
//! the per-frame update call, and copies the pixel buffer out of the guest's
//! linear memory with an explicit bounds check on every crossing.
//!
//! The guest is untrusted: a call into it may trap, and the buffer address it
//! reports may lie anywhere. The bridge therefore never reads unless the
//! whole range `[address, address + PIXEL_BUFFER_SIZE)` lies inside the
//! guest's current memory, and a failed frame leaves the previous snapshot
//! untouched (last-good-frame semantics).

use vstd::prelude::*;
use crate::pixel::{zero_pixels, zeroed_buffer, PIXEL_BUFFER_SIZE};
use crate::wasm_env::{
    call_frame, call_frame_addr, call_frame_ret, call_locator, call_nullary, engine_new,
    get_memory_export, get_typed_frame, get_typed_frame_addr, get_typed_frame_ret,
    get_typed_locator, get_typed_nullary, has_func_export, instantiate_and_start, linker_new,
    mem_bytes, memory_grow, memory_read_block, memory_size, memory_store, module_new, store_id,
    store_new, tf_frame_addr_store, tf_frame_ret_store, tf_frame_store, tf_locator_store,
    tf_nullary_store, wasm_exports_func, wasm_func_is_frame, wasm_func_is_frame_addr,
    wasm_func_is_frame_ret, wasm_func_is_locator, wasm_func_is_nullary, wasm_instantiates,
    wasm_memory_export, wasm_valid,
};

verus! {

/// Why a compiled module was rejected at load time. All load failures are
/// fatal and non-retryable.
#[derive(Clone, Copy, Debug, PartialEq, Eq, Structural)]
pub enum LoadError {
    /// The binary could not be parsed, validated or instantiated.
    Malformed,
    /// A required export (`memory`, `init` or `update`) is absent.
    MissingExport,
    /// A required export exists but its argument or return types do not
    /// match the expected contract, so no buffer-ownership convention could
    /// be recognised from the exports.
    SignatureMismatch,
}

/// Why a call into a loaded module failed. A trapped or out-of-bounds module
/// instance is permanently lost; the bridge never retries it.
#[derive(Clone, Copy, Debug, PartialEq, Eq, Structural)]
pub enum FaultError {
    /// `advance_frame` was called before `start`.
    NotStarted,
    /// `start` was called a second time.
    AlreadyStarted,
    /// The guest trapped inside the call.
    Trap,
    /// The guest reported a buffer address whose range leaves its linear
    /// memory; nothing was read.
    OutOfBounds,
}

/// The buffer-ownership convention a loaded module uses, resolved once at
/// load time from which entry points the module exports.
#[derive(Clone, Copy, Debug, PartialEq, Eq, Structural)]
pub enum BufferConvention {
    /// The guest owns a stable buffer; its address is queried once through a
    /// locator export.
    GuestOwned,
    /// The host allocates a fixed scratch region in the guest's memory at
    /// load time and passes its address on every call.
    HostProvided,
    /// The update call itself returns the buffer address, re-resolved every
    /// frame.
    PerFrameResolved,
}

/// Whether the binary parses, validates and instantiates: the conditions a
/// module must clear before its exports can be probed. Their failure is
/// `LoadError::Malformed`.
pub open spec fn module_parses(wasm: Seq<u8>) -> bool {
    wasm_valid(wasm) && wasm_instantiates(wasm)
}

/// Whether every required export is present: a linear memory `memory` and
/// functions `init` and `update`. Absence is `LoadError::MissingExport`.
pub open spec fn module_has_exports(wasm: Seq<u8>) -> bool {
    &&& wasm_memory_export(wasm, "memory"@)
    &&& wasm_exports_func(wasm, "init"@)
    &&& wasm_exports_func(wasm, "update"@)
}

/// Whether the exports' signatures fit one buffer-ownership convention:
/// `init` takes and returns nothing, and either a `buffer_ptr` locator
/// exists with `update` taking the frame counter (guest-owned), or `update`
/// also takes a buffer address (host-provided) or returns one
/// (per-frame-resolved). Failure is `LoadError::SignatureMismatch`.
pub open spec fn module_signatures_ok(wasm: Seq<u8>) -> bool {
    &&& wasm_func_is_nullary(wasm, "init"@)
    &&& if wasm_exports_func(wasm, "buffer_ptr"@) {
        wasm_func_is_locator(wasm, "buffer_ptr"@) && wasm_func_is_frame(wasm, "update"@)
    } else {
        wasm_func_is_frame_addr(wasm, "update"@) || wasm_func_is_frame_ret(wasm, "update"@)
    }
}

/// Everything `load` probes for: the module parses, has the required
/// exports, and their signatures fit a convention.
pub open spec fn module_loadable(wasm: Seq<u8>) -> bool {
    module_parses(wasm) && module_has_exports(wasm) && module_signatures_ok(wasm)
}

/// The convention a loadable module resolves to: a `buffer_ptr` export means
/// guest-owned; otherwise an `update` taking a buffer address means
/// host-provided, else the update's return value is the address.
pub open spec fn probed_convention(wasm: Seq<u8>) -> BufferConvention {
    if wasm_exports_func(wasm, "buffer_ptr"@) {
        BufferConvention::GuestOwned
    } else if wasm_func_is_frame_addr(wasm, "update"@) {
        BufferConvention::HostProvided
    } else {
        BufferConvention::PerFrameResolved
    }
}

/// The resolved entry points of a loaded module, by convention.
#[derive(Clone, Copy)]
enum Resolved {
    GuestOwned {
        locate: wasmi::TypedFunc<(), i32>,
        update: wasmi::TypedFunc<u64, ()>,
        addr: Option<u32>,
    },
    HostProvided { update_addr: wasmi::TypedFunc<(u64, i32), ()>, scratch: u32 },
    PerFrame { update_ret: wasmi::TypedFunc<u64, i32> },
}

/// A loaded guest module: its isolated store and memory, its entry points
/// resolved and cached at load time, and the host-owned snapshot of the most
/// recently captured pixel buffer.
pub struct ModuleHandle {
    store: wasmi::Store<()>,
    memory: wasmi::Memory,
    init_fn: wasmi::TypedFunc<(), ()>,
    resolved: Resolved,
    started: bool,
    snapshot: Vec<u8>,
    last_addr: Ghost<u32>,
}

impl ModuleHandle {
    /// The handle is consistent: the snapshot has the fixed buffer size,
    /// every cached wasmi handle belongs to the handle's own store, and once
    /// started a guest-owned buffer address has been resolved.
    pub closed spec fn wf(&self) -> bool {
        &&& self.snapshot@.len() == PIXEL_BUFFER_SIZE as nat
        &&& memory_store(self.memory) == store_id(self.store)
        &&& tf_nullary_store(self.init_fn) == store_id(self.store)
        &&& match self.resolved {
            Resolved::GuestOwned { locate, update, addr } => {
                &&& tf_locator_store(locate) == store_id(self.store)
                &&& tf_frame_store(update) == store_id(self.store)
                &&& self.started ==> addr is Some
            },
            Resolved::HostProvided { update_addr, .. } => tf_frame_addr_store(update_addr)
                == store_id(self.store),
            Resolved::PerFrame { update_ret } => tf_frame_ret_store(update_ret) == store_id(
                self.store,
            ),
        }
    }

    /// Whether `start` has run.
    pub closed spec fn has_started(&self) -> bool {
        self.started
    }

    /// The host-owned copy of the most recently captured pixel buffer.
    pub closed spec fn snapshot_bytes(&self) -> Seq<u8> {
        self.snapshot@
    }

    /// The guest's linear memory as its store currently holds it.
    pub closed spec fn guest_mem(&self) -> Seq<u8> {
        mem_bytes(self.store, self.memory)
    }

    /// The convention the loaded module was resolved to.
    pub closed spec fn convention_spec(&self) -> BufferConvention {
        match self.resolved {
            Resolved::GuestOwned { .. } => BufferConvention::GuestOwned,
            Resolved::HostProvided { .. } => BufferConvention::HostProvided,
            Resolved::PerFrame { .. } => BufferConvention::PerFrameResolved,
        }
    }

    /// The buffer address resolved once and cached: the scratch region
    /// chosen at load time under the host-provided convention, the locator's
    /// answer cached at `start` under the guest-owned convention, and none
    /// under the per-frame convention, whose address is re-resolved on every
    /// call.
    pub closed spec fn buffer_addr(&self) -> Option<u32> {
        match self.resolved {
            Resolved::GuestOwned { addr, .. } => addr,
            Resolved::HostProvided { scratch, .. } => Some(scratch),
            Resolved::PerFrame { .. } => None,
        }
    }

    /// The guest-memory address the most recent successful capture copied
    /// from.
    pub closed spec fn capture_addr(&self) -> u32 {
        self.last_addr@
    }

    /// Validates and instantiates a compiled module, resolving and
    /// type-checking every required entry point and probing which
    /// buffer-ownership convention it uses. The probe runs once, here;
    /// nothing is re-resolved per frame. Each load failure is tied to its
    /// cause: a binary that does not parse, validate or instantiate is
    /// `Malformed`; a missing required export is `MissingExport`; exports
    /// whose types fit no convention are `SignatureMismatch`; and a loadable
    /// module loads — except that under the host-provided convention a guest
    /// memory that cannot take one more 64 KiB scratch page (or already
    /// spans the 32-bit address space) is rejected as `Malformed`.
    pub fn load(wasm: &[u8]) -> (r: Result<ModuleHandle, LoadError>)
        ensures
            !module_parses(wasm@) ==> r == Err::<ModuleHandle, LoadError>(LoadError::Malformed),
            module_parses(wasm@) && !module_has_exports(wasm@) ==> r == Err::<
                ModuleHandle,
                LoadError,
            >(LoadError::MissingExport),
            module_parses(wasm@) && module_has_exports(wasm@) && !module_signatures_ok(wasm@)
                ==> r == Err::<ModuleHandle, LoadError>(LoadError::SignatureMismatch),
            module_loadable(wasm@) && probed_convention(wasm@)
                != BufferConvention::HostProvided ==> r is Ok,
            module_loadable(wasm@) && probed_convention(wasm@)
                == BufferConvention::HostProvided ==> r is Ok || r == Err::<
                ModuleHandle,
                LoadError,
            >(LoadError::Malformed),
            r is Ok ==> {
                &&& module_loadable(wasm@)
                &&& r->Ok_0.wf()
                &&& !r->Ok_0.has_started()
                &&& r->Ok_0.snapshot_bytes() == zero_pixels()
                &&& r->Ok_0.convention_spec() == probed_convention(wasm@)
                &&& (r->Ok_0.convention_spec() == BufferConvention::HostProvided
                    ==> r->Ok_0.buffer_addr() is Some)
            },
    {
        let engine = engine_new();
        let module = match module_new(&engine, wasm) {
            Ok(m) => m,
            Err(_) => { return Err(LoadError::Malformed) },
        };
        let mut store = store_new(&engine);
        let linker = linker_new(&engine);
        let instance = match instantiate_and_start(&linker, &mut store, &module) {
            Ok(i) => i,
            Err(_) => { return Err(LoadError::Malformed) },
        };
        let memory = match get_memory_export(&instance, &store, "memory") {
            Some(m) => m,
            None => { return Err(LoadError::MissingExport) },
        };
        if !has_func_export(&instance, &store, "init") {
            return Err(LoadError::MissingExport);
        }
        if !has_func_export(&instance, &store, "update") {
            return Err(LoadError::MissingExport);
        }
        let init_fn = match get_typed_nullary(&instance, &store, "init") {
            Ok(f) => f,
            Err(_) => { return Err(LoadError::SignatureMismatch) },
        };
        let resolved: Resolved;
        if has_func_export(&instance, &store, "buffer_ptr") {
            let locate = match get_typed_locator(&instance, &store, "buffer_ptr") {
                Ok(f) => f,
                Err(_) => { return Err(LoadError::SignatureMismatch) },
            };
            let update = match get_typed_frame(&instance, &store, "update") {
                Ok(f) => f,
                Err(_) => { return Err(LoadError::SignatureMismatch) },
            };
            resolved = Resolved::GuestOwned { locate, update, addr: None };
        } else {
            match get_typed_frame_addr(&instance, &store, "update") {
                Ok(update_addr) => {
                    let prev_pages = match memory_grow(&memory, &mut store, 1) {
                        Ok(p) => p,
                        Err(_) => { return Err(LoadError::Malformed) },
                    };
                    if prev_pages > 65535 {
                        // the scratch address would not fit the guest's
                        // 32-bit address space
                        return Err(LoadError::Malformed);
                    }
                    let scratch: u32 = (prev_pages as u32) * 65536;
                    resolved = Resolved::HostProvided { update_addr, scratch };
                },
                Err(_) => {
                    match get_typed_frame_ret(&instance, &store, "update") {
                        Ok(update_ret) => { resolved = Resolved::PerFrame { update_ret }; },
                        Err(_) => { return Err(LoadError::SignatureMismatch) },
                    }
                },
            }
        }
        Ok(
            ModuleHandle {
                store,
                memory,
                init_fn,
                resolved,
                started: false,
                snapshot: zeroed_buffer(),
                last_addr: Ghost(0u32),
            },
        )
    }

    /// Runs the guest's `init` entry point. May run only once per handle: a
    /// second call is rejected without touching the guest. Under the
    /// guest-owned convention the stable buffer address is queried here,
    /// once; under every other convention the cached address is untouched.
    /// On a fresh handle the only possible failure is a guest trap.
    pub fn start(&mut self) -> (r: Result<(), FaultError>)
        requires
            old(self).wf(),
        ensures
            final(self).wf(),
            final(self).snapshot_bytes() == old(self).snapshot_bytes(),
            final(self).convention_spec() == old(self).convention_spec(),
            old(self).has_started() ==> r == Err::<(), FaultError>(FaultError::AlreadyStarted)
                && *final(self) == *old(self),
            !old(self).has_started() && r is Err ==> r == Err::<(), FaultError>(FaultError::Trap)
                && !final(self).has_started(),
            r is Ok ==> final(self).has_started(),
            r is Ok && final(self).convention_spec() == BufferConvention::GuestOwned
                ==> final(self).buffer_addr() is Some,
            old(self).convention_spec() != BufferConvention::GuestOwned
                ==> final(self).buffer_addr() == old(self).buffer_addr(),
    {
        if self.started {
            return Err(FaultError::AlreadyStarted);
        }
        match call_nullary(&mut self.store, &self.init_fn) {
            Ok(_) => {},
            Err(_) => { return Err(FaultError::Trap) },
        }
        let res = self.resolved;
        match res {
            Resolved::GuestOwned { locate, update, addr: _ } => {
                let a = match call_locator(&mut self.store, &locate) {
                    Ok(v) => v,
                    Err(_) => { return Err(FaultError::Trap) },
                };
                self.resolved = Resolved::GuestOwned { locate, update, addr: Some(a as u32) };
            },
            _ => {},
        }
        self.started = true;
        Ok(())
    }

    /// Calls the guest's per-frame entry point with `frame`, resolves the
    /// buffer address under the module's convention — the address cached at
    /// `start` for a guest-owned buffer, the load-time scratch address for a
    /// host-provided one, the call's own return value per frame — and copies
    /// exactly `PIXEL_BUFFER_SIZE` bytes starting at that address out of the
    /// guest's memory, but only after checking that the whole source range
    /// lies within the memory's current bounds. On success the returned
    /// snapshot is that in-bounds copy; on any fault the previous snapshot
    /// is left untouched and nothing partial is ever exposed. On a started
    /// handle the only possible failures are a guest trap and an
    /// out-of-bounds buffer range.
    pub fn advance_frame(&mut self, frame: u64) -> (r: Result<Vec<u8>, FaultError>)
        requires
            old(self).wf(),
        ensures
            final(self).wf(),
            final(self).has_started() == old(self).has_started(),
            final(self).convention_spec() == old(self).convention_spec(),
            final(self).buffer_addr() == old(self).buffer_addr(),
            !old(self).has_started() ==> r == Err::<Vec<u8>, FaultError>(FaultError::NotStarted),
            old(self).has_started() && r is Err ==> r == Err::<Vec<u8>, FaultError>(
                FaultError::Trap,
            ) || r == Err::<Vec<u8>, FaultError>(FaultError::OutOfBounds),
            r is Err ==> final(self).snapshot_bytes() == old(self).snapshot_bytes(),
            r is Ok ==> {
                let a = final(self).capture_addr() as int;
                &&& r->Ok_0@.len() == PIXEL_BUFFER_SIZE as nat
                &&& r->Ok_0@ == final(self).snapshot_bytes()
                &&& a + PIXEL_BUFFER_SIZE as int <= final(self).guest_mem().len()
                &&& r->Ok_0@ == final(self).guest_mem().subrange(
                    a,
                    a + PIXEL_BUFFER_SIZE as int,
                )
                &&& (final(self).convention_spec() != BufferConvention::PerFrameResolved
                    ==> final(self).buffer_addr() == Some(final(self).capture_addr()))
            },
    {
        if !self.started {
            return Err(FaultError::NotStarted);
        }
        let res = self.resolved;
        let addr: u32 = match res {
            Resolved::GuestOwned { update, addr, .. } => {
                match call_frame(&mut self.store, &update, frame) {
                    Ok(_) => {},
                    Err(_) => { return Err(FaultError::Trap) },
                }
                match addr {
                    Some(v) => v,
                    None => {
                        proof {
                            assert(false);
                        }
                        vstd::pervasive::unreached()
                    },
                }
            },
            Resolved::HostProvided { update_addr, scratch } => {
                match call_frame_addr(&mut self.store, &update_addr, frame, #[verifier::truncate] (scratch as i32)) {
                    Ok(_) => {},
                    Err(_) => { return Err(FaultError::Trap) },
                }
                scratch
            },
            Resolved::PerFrame { update_ret } => {
                match call_frame_ret(&mut self.store, &update_ret, frame) {
                    Ok(v) => #[verifier::truncate] (v as u32),
                    Err(_) => { return Err(FaultError::Trap) },
                }
            },
        };
        let size = memory_size(&self.memory, &self.store);
        if (addr as u64) + (PIXEL_BUFFER_SIZE as u64) > (size as u64) {
            return Err(FaultError::OutOfBounds);
        }
        let bytes = match memory_read_block(
            &self.memory,
            &self.store,
            addr as usize,
            PIXEL_BUFFER_SIZE,
        ) {
            Ok(v) => v,
            Err(_) => {
                proof {
                    assert(false);
                }
                vstd::pervasive::unreached()
            },
        };
        self.snapshot = bytes;
        self.last_addr = Ghost(addr);
        let out = copy_bytes(&self.snapshot);
        Ok(out)
    }

    /// The most recently captured pixel buffer, read-only. Before the first
    /// successful `advance_frame` this is the all-zero buffer.
    pub fn snapshot(&self) -> (r: &Vec<u8>)
        ensures
            r@ == self.snapshot_bytes(),
    {
        &self.snapshot
    }

    /// Which buffer-ownership convention the loaded module uses.
    pub fn convention(&self) -> (r: BufferConvention)
        ensures
            r == self.convention_spec(),
    {
        match self.resolved {
            Resolved::GuestOwned { .. } => BufferConvention::GuestOwned,
            Resolved::HostProvided { .. } => BufferConvention::HostProvided,
            Resolved::PerFrame { .. } => BufferConvention::PerFrameResolved,
        }
    }

    /// Whether `start` has run, as an exec query.
    pub fn started(&self) -> (r: bool)
        ensures
            r == self.has_started(),
    {
        self.started
    }
}

/// An element-for-element copy of a byte vector.
fn copy_bytes(v: &Vec<u8>) -> (r: Vec<u8>)
    ensures
        r@ == v@,
{
    let mut r: Vec<u8> = Vec::new();
    let mut i: usize = 0;
    while i < v.len()
        invariant
            i <= v@.len(),
            r@.len() == i as nat,
            forall|j: int| 0 <= j < i ==> r@[j] == v@[j],
        decreases v@.len() - i,
    {
        r.push(v[i]);
        i = i + 1;
    }
    proof {
        assert(r@ =~= v@);
    }
    r
}

} // verus!
