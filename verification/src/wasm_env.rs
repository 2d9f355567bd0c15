//! The trusted surface over the wasmi interpreter.
//!
//! Everything the execution bridge knows about the isolated execution
//! environment is stated here: opaque declarations of wasmi's handle types,
//! uninterpreted functions naming what a store holds, and thin wrappers whose
//! contracts say what each wasmi call does. Each wrapper relies on the wasmi
//! source; nothing else in the crate touches wasmi directly.
//!
//! wasmi's handles (instances, memories, typed functions) belong to the store
//! that created them, and wasmi panics when a handle is used with a store
//! that does not own it. The `store_id` family of uninterpreted functions
//! tracks that ownership so verified code can never mix stores: every
//! accessor promises that the handles it returns belong to the given store,
//! and every call requires it.
//!
//! A second family of uninterpreted functions names what loading decides
//! about a module binary: whether it is valid, whether it instantiates, and
//! which exports it has under which signatures. Each is a function of the
//! bytes alone because this crate builds every engine with the default
//! configuration (`engine_new`) and every linker empty (`linker_new`), and
//! wasmi's parsing, validation, instantiation and start execution are
//! deterministic under a fixed configuration with no imports.

use vstd::prelude::*;

verus! {

#[verifier::external_type_specification]
#[verifier::external_body]
pub struct ExEngine(wasmi::Engine);

#[verifier::external_type_specification]
#[verifier::external_body]
pub struct ExModule(wasmi::Module);

#[verifier::external_type_specification]
#[verifier::external_body]
#[verifier::reject_recursive_types(T)]
pub struct ExStore<T>(wasmi::Store<T>);

#[verifier::external_type_specification]
#[verifier::external_body]
#[verifier::reject_recursive_types(T)]
pub struct ExLinker<T>(wasmi::Linker<T>);

#[verifier::external_type_specification]
#[verifier::external_body]
pub struct ExInstance(wasmi::Instance);

#[verifier::external_type_specification]
#[verifier::external_body]
pub struct ExMemory(wasmi::Memory);

#[verifier::external_type_specification]
#[verifier::external_body]
#[verifier::reject_recursive_types(Params)]
#[verifier::reject_recursive_types(Results)]
pub struct ExTypedFunc<Params, Results>(wasmi::TypedFunc<Params, Results>);

#[verifier::external_type_specification]
#[verifier::external_body]
pub struct ExError(wasmi::Error);

#[verifier::external_type_specification]
#[verifier::external_body]
pub struct ExMemoryError(wasmi::errors::MemoryError);

// The identity of the engine a value was built for. wasmi requires that a
// linker, module and store agree on the engine before instantiation.
pub uninterp spec fn engine_id(e: wasmi::Engine) -> int;

// The identity of a store. Mutating a store's contents (by running guest
// code in it) never changes which store it is, so the wrappers preserve it.
pub uninterp spec fn store_id(s: wasmi::Store<()>) -> int;

// The engine a store was created against.
pub uninterp spec fn store_engine(s: wasmi::Store<()>) -> int;

// The engine a linker was created against.
pub uninterp spec fn linker_engine(l: wasmi::Linker<()>) -> int;

// The engine a module was compiled for.
pub uninterp spec fn module_engine(m: wasmi::Module) -> int;

// The store that owns an instance.
pub uninterp spec fn instance_store(i: wasmi::Instance) -> int;

// The store that owns a linear memory.
pub uninterp spec fn memory_store(m: wasmi::Memory) -> int;

// The store that owns a typed function of each signature the bridge uses.
pub uninterp spec fn tf_nullary_store(f: wasmi::TypedFunc<(), ()>) -> int;

pub uninterp spec fn tf_locator_store(f: wasmi::TypedFunc<(), i32>) -> int;

pub uninterp spec fn tf_frame_store(f: wasmi::TypedFunc<u64, ()>) -> int;

pub uninterp spec fn tf_frame_addr_store(f: wasmi::TypedFunc<(u64, i32), ()>) -> int;

pub uninterp spec fn tf_frame_ret_store(f: wasmi::TypedFunc<u64, i32>) -> int;

// The bytes of a linear memory as held by a store: the guest's whole
// address space, one byte per address.
pub uninterp spec fn mem_bytes(s: wasmi::Store<()>, m: wasmi::Memory) -> Seq<u8>;

// Whether `wasm` parses, validates and translates under the default engine
// configuration.
pub uninterp spec fn wasm_valid(wasm: Seq<u8>) -> bool;

// Whether a valid `wasm` instantiates with an empty linker and its start
// section, if any, runs without trapping.
pub uninterp spec fn wasm_instantiates(wasm: Seq<u8>) -> bool;

// The binary a compiled module was built from.
pub uninterp spec fn module_wasm(m: wasmi::Module) -> Seq<u8>;

// The binary the instance's module was built from.
pub uninterp spec fn instance_wasm(i: wasmi::Instance) -> Seq<u8>;

// Whether the module binary exports a linear memory under `name`.
pub uninterp spec fn wasm_memory_export(wasm: Seq<u8>, name: Seq<char>) -> bool;

// Whether the module binary exports a function under `name`, of whatever
// signature.
pub uninterp spec fn wasm_exports_func(wasm: Seq<u8>, name: Seq<char>) -> bool;

// Whether the module binary exports a function under `name` with each exact
// signature the bridge probes for.
pub uninterp spec fn wasm_func_is_nullary(wasm: Seq<u8>, name: Seq<char>) -> bool;

pub uninterp spec fn wasm_func_is_locator(wasm: Seq<u8>, name: Seq<char>) -> bool;

pub uninterp spec fn wasm_func_is_frame(wasm: Seq<u8>, name: Seq<char>) -> bool;

pub uninterp spec fn wasm_func_is_frame_addr(wasm: Seq<u8>, name: Seq<char>) -> bool;

pub uninterp spec fn wasm_func_is_frame_ret(wasm: Seq<u8>, name: Seq<char>) -> bool;

/// Relies on wasmi's Engine::default: a fresh engine with the default
/// configuration.
#[verifier::external_body]
pub(crate) fn engine_new() -> wasmi::Engine {
    wasmi::Engine::default()
}

/// Relies on wasmi's Module::new: parses and validates a wasm module (in
/// binary encoding, or in text encoding under wasmi's default features) for
/// the given engine, failing on malformed or invalid input. Success is a
/// function of the bytes alone, `wasm_valid`, since every engine this crate
/// builds carries the default configuration.
#[verifier::external_body]
pub(crate) fn module_new(engine: &wasmi::Engine, wasm: &[u8]) -> (r: Result<
    wasmi::Module,
    wasmi::Error,
>)
    ensures
        r is Ok <==> wasm_valid(wasm@),
        r is Ok ==> module_engine(r->Ok_0) == engine_id(*engine) && module_wasm(r->Ok_0)
            == wasm@,
{
    wasmi::Module::new(engine, wasm)
}

/// Relies on wasmi's Store::new: a fresh store bound to the given engine.
#[verifier::external_body]
pub(crate) fn store_new(engine: &wasmi::Engine) -> (r: wasmi::Store<()>)
    ensures
        store_engine(r) == engine_id(*engine),
{
    wasmi::Store::new(engine, ())
}

/// Relies on wasmi's Linker::new: a fresh linker bound to the given engine.
#[verifier::external_body]
pub(crate) fn linker_new(engine: &wasmi::Engine) -> (r: wasmi::Linker<()>)
    ensures
        linker_engine(r) == engine_id(*engine),
{
    wasmi::Linker::new(engine)
}

/// Relies on wasmi's Linker::instantiate_and_start: instantiates the module
/// in the store, runs its start section if any, and returns an instance
/// owned by that store. wasmi asserts that linker and store share an engine,
/// so the contract requires it. Success is a function of the module binary
/// alone, `wasm_instantiates`, since every linker this crate builds is empty
/// and every store is unlimited; a module with imports fails here.
#[verifier::external_body]
pub(crate) fn instantiate_and_start(
    linker: &wasmi::Linker<()>,
    store: &mut wasmi::Store<()>,
    module: &wasmi::Module,
) -> (r: Result<wasmi::Instance, wasmi::Error>)
    requires
        linker_engine(*linker) == store_engine(*old(store)),
        module_engine(*module) == store_engine(*old(store)),
    ensures
        store_id(*final(store)) == store_id(*old(store)),
        store_engine(*final(store)) == store_engine(*old(store)),
        r is Ok <==> wasm_instantiates(module_wasm(*module)),
        r is Ok ==> instance_store(r->Ok_0) == store_id(*final(store)) && instance_wasm(
            r->Ok_0,
        ) == module_wasm(*module),
{
    linker.instantiate_and_start(store, module)
}

/// Relies on wasmi's Instance::get_memory: looks up the export `name`,
/// returning its handle exactly when the module exports a linear memory
/// under that name; the handle belongs to the instance's store.
#[verifier::external_body]
pub(crate) fn get_memory_export(
    instance: &wasmi::Instance,
    store: &wasmi::Store<()>,
    name: &str,
) -> (r: Option<wasmi::Memory>)
    requires
        instance_store(*instance) == store_id(*store),
    ensures
        r is Some <==> wasm_memory_export(instance_wasm(*instance), name@),
        r is Some ==> memory_store(r->Some_0) == store_id(*store),
{
    instance.get_memory(store, name)
}

/// Relies on wasmi's Instance::get_func: whether the module exports a
/// function under `name`, of whatever signature.
#[verifier::external_body]
pub(crate) fn has_func_export(
    instance: &wasmi::Instance,
    store: &wasmi::Store<()>,
    name: &str,
) -> (r: bool)
    requires
        instance_store(*instance) == store_id(*store),
    ensures
        r == wasm_exports_func(instance_wasm(*instance), name@),
{
    instance.get_func(store, name).is_some()
}

/// Relies on wasmi's Instance::get_typed_func: resolves the export `name` as
/// a function taking nothing and returning nothing, succeeding exactly when
/// the module exports a function of that name and signature.
#[verifier::external_body]
pub(crate) fn get_typed_nullary(
    instance: &wasmi::Instance,
    store: &wasmi::Store<()>,
    name: &str,
) -> (r: Result<wasmi::TypedFunc<(), ()>, wasmi::Error>)
    requires
        instance_store(*instance) == store_id(*store),
    ensures
        r is Ok <==> wasm_func_is_nullary(instance_wasm(*instance), name@),
        r is Ok ==> tf_nullary_store(r->Ok_0) == store_id(*store),
{
    instance.get_typed_func::<(), ()>(store, name)
}

/// Relies on wasmi's Instance::get_typed_func: resolves the export `name` as
/// a function taking nothing and returning one i32 (a buffer address),
/// succeeding exactly when the module exports that name with that signature.
#[verifier::external_body]
pub(crate) fn get_typed_locator(
    instance: &wasmi::Instance,
    store: &wasmi::Store<()>,
    name: &str,
) -> (r: Result<wasmi::TypedFunc<(), i32>, wasmi::Error>)
    requires
        instance_store(*instance) == store_id(*store),
    ensures
        r is Ok <==> wasm_func_is_locator(instance_wasm(*instance), name@),
        r is Ok ==> tf_locator_store(r->Ok_0) == store_id(*store),
{
    instance.get_typed_func::<(), i32>(store, name)
}

/// Relies on wasmi's Instance::get_typed_func: resolves the export `name` as
/// a function taking one i64 (the frame counter) and returning nothing,
/// succeeding exactly when the module exports that name with that signature.
#[verifier::external_body]
pub(crate) fn get_typed_frame(
    instance: &wasmi::Instance,
    store: &wasmi::Store<()>,
    name: &str,
) -> (r: Result<wasmi::TypedFunc<u64, ()>, wasmi::Error>)
    requires
        instance_store(*instance) == store_id(*store),
    ensures
        r is Ok <==> wasm_func_is_frame(instance_wasm(*instance), name@),
        r is Ok ==> tf_frame_store(r->Ok_0) == store_id(*store),
{
    instance.get_typed_func::<u64, ()>(store, name)
}

/// Relies on wasmi's Instance::get_typed_func: resolves the export `name` as
/// a function taking an i64 frame counter and an i32 buffer address and
/// returning nothing, succeeding exactly when the module exports that name
/// with that signature.
#[verifier::external_body]
pub(crate) fn get_typed_frame_addr(
    instance: &wasmi::Instance,
    store: &wasmi::Store<()>,
    name: &str,
) -> (r: Result<wasmi::TypedFunc<(u64, i32), ()>, wasmi::Error>)
    requires
        instance_store(*instance) == store_id(*store),
    ensures
        r is Ok <==> wasm_func_is_frame_addr(instance_wasm(*instance), name@),
        r is Ok ==> tf_frame_addr_store(r->Ok_0) == store_id(*store),
{
    instance.get_typed_func::<(u64, i32), ()>(store, name)
}

/// Relies on wasmi's Instance::get_typed_func: resolves the export `name` as
/// a function taking an i64 frame counter and returning an i32 buffer
/// address, succeeding exactly when the module exports that name with that
/// signature.
#[verifier::external_body]
pub(crate) fn get_typed_frame_ret(
    instance: &wasmi::Instance,
    store: &wasmi::Store<()>,
    name: &str,
) -> (r: Result<wasmi::TypedFunc<u64, i32>, wasmi::Error>)
    requires
        instance_store(*instance) == store_id(*store),
    ensures
        r is Ok <==> wasm_func_is_frame_ret(instance_wasm(*instance), name@),
        r is Ok ==> tf_frame_ret_store(r->Ok_0) == store_id(*store),
{
    instance.get_typed_func::<u64, i32>(store, name)
}

/// Relies on wasmi's TypedFunc::call: runs the guest function to completion
/// in its store, failing if the guest traps. The guest may change its own
/// memory arbitrarily, so nothing is promised of the store's contents.
#[verifier::external_body]
pub(crate) fn call_nullary(store: &mut wasmi::Store<()>, f: &wasmi::TypedFunc<(), ()>) -> (r:
    Result<(), wasmi::Error>)
    requires
        tf_nullary_store(*f) == store_id(*old(store)),
    ensures
        store_id(*final(store)) == store_id(*old(store)),
        store_engine(*final(store)) == store_engine(*old(store)),
{
    f.call(store, ())
}

/// Relies on wasmi's TypedFunc::call: runs the guest locator function,
/// returning the address it reports, or failing if the guest traps.
#[verifier::external_body]
pub(crate) fn call_locator(store: &mut wasmi::Store<()>, f: &wasmi::TypedFunc<(), i32>) -> (r:
    Result<i32, wasmi::Error>)
    requires
        tf_locator_store(*f) == store_id(*old(store)),
    ensures
        store_id(*final(store)) == store_id(*old(store)),
        store_engine(*final(store)) == store_engine(*old(store)),
{
    f.call(store, ())
}

/// Relies on wasmi's TypedFunc::call: runs the guest per-frame function with
/// the frame counter, failing if the guest traps.
#[verifier::external_body]
pub(crate) fn call_frame(
    store: &mut wasmi::Store<()>,
    f: &wasmi::TypedFunc<u64, ()>,
    frame: u64,
) -> (r: Result<(), wasmi::Error>)
    requires
        tf_frame_store(*f) == store_id(*old(store)),
    ensures
        store_id(*final(store)) == store_id(*old(store)),
        store_engine(*final(store)) == store_engine(*old(store)),
{
    f.call(store, frame)
}

/// Relies on wasmi's TypedFunc::call: runs the guest per-frame function with
/// the frame counter and a host-chosen buffer address, failing if the guest
/// traps.
#[verifier::external_body]
pub(crate) fn call_frame_addr(
    store: &mut wasmi::Store<()>,
    f: &wasmi::TypedFunc<(u64, i32), ()>,
    frame: u64,
    addr: i32,
) -> (r: Result<(), wasmi::Error>)
    requires
        tf_frame_addr_store(*f) == store_id(*old(store)),
    ensures
        store_id(*final(store)) == store_id(*old(store)),
        store_engine(*final(store)) == store_engine(*old(store)),
{
    f.call(store, (frame, addr))
}

/// Relies on wasmi's TypedFunc::call: runs the guest per-frame function with
/// the frame counter and returns the buffer address the guest reports,
/// failing if the guest traps.
#[verifier::external_body]
pub(crate) fn call_frame_ret(
    store: &mut wasmi::Store<()>,
    f: &wasmi::TypedFunc<u64, i32>,
    frame: u64,
) -> (r: Result<i32, wasmi::Error>)
    requires
        tf_frame_ret_store(*f) == store_id(*old(store)),
    ensures
        store_id(*final(store)) == store_id(*old(store)),
        store_engine(*final(store)) == store_engine(*old(store)),
{
    f.call(store, frame)
}

/// Relies on wasmi's Memory::data_size: the byte length of the linear memory
/// as the store currently holds it.
#[verifier::external_body]
pub(crate) fn memory_size(memory: &wasmi::Memory, store: &wasmi::Store<()>) -> (r: usize)
    requires
        memory_store(*memory) == store_id(*store),
    ensures
        r == mem_bytes(*store, *memory).len(),
{
    memory.data_size(store)
}

/// Relies on wasmi's Memory::read: copies `len` bytes starting at `offset`
/// out of the linear memory, failing exactly when the range
/// `offset..offset + len` is not entirely within the memory's bounds, in
/// which case nothing is read.
#[verifier::external_body]
pub(crate) fn memory_read_block(
    memory: &wasmi::Memory,
    store: &wasmi::Store<()>,
    offset: usize,
    len: usize,
) -> (r: Result<Vec<u8>, wasmi::errors::MemoryError>)
    requires
        memory_store(*memory) == store_id(*store),
    ensures
        r is Ok ==> offset + len <= mem_bytes(*store, *memory).len() && r->Ok_0@ == mem_bytes(
            *store,
            *memory,
        ).subrange(offset as int, offset + len),
        r is Err ==> offset + len > mem_bytes(*store, *memory).len(),
{
    let mut buffer = vec![0u8; len];
    match memory.read(store, offset, &mut buffer) {
        Ok(()) => Ok(buffer),
        Err(e) => Err(e),
    }
}

/// Relies on wasmi's Memory::grow: appends `additional` zeroed pages to the
/// linear memory, returning its previous size in pages, or fails, changing
/// nothing, if the memory's limit would be exceeded. A page is 65536 bytes:
/// the default engine configuration rejects modules that pick another page
/// size.
#[verifier::external_body]
pub(crate) fn memory_grow(
    memory: &wasmi::Memory,
    store: &mut wasmi::Store<()>,
    additional: u64,
) -> (r: Result<u64, wasmi::errors::MemoryError>)
    requires
        memory_store(*memory) == store_id(*old(store)),
    ensures
        store_id(*final(store)) == store_id(*old(store)),
        store_engine(*final(store)) == store_engine(*old(store)),
        r is Ok ==> {
            &&& r->Ok_0 * 65536 == mem_bytes(*old(store), *memory).len()
            &&& mem_bytes(*final(store), *memory).len() == mem_bytes(*old(store), *memory).len()
                + additional * 65536
            &&& mem_bytes(*final(store), *memory).subrange(
                0,
                mem_bytes(*old(store), *memory).len() as int,
            ) == mem_bytes(*old(store), *memory)
        },
        r is Err ==> mem_bytes(*final(store), *memory) == mem_bytes(*old(store), *memory),
{
    memory.grow(store, additional)
}

} // verus!
