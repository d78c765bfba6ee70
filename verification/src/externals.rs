use vstd::prelude::*;

use crate::registry::ImportKey;

verus! {

#[verifier::external_type_specification]
#[verifier::external_body]
pub struct ExEngine(wasmtime::Engine);

#[verifier::external_type_specification]
#[verifier::external_body]
pub struct ExModule(wasmtime::Module);

#[verifier::external_type_specification]
#[verifier::external_body]
pub struct ExFunc(wasmtime::Func);

#[verifier::external_type_specification]
#[verifier::external_body]
pub struct ExInstance(wasmtime::Instance);

#[verifier::external_type_specification]
#[verifier::external_body]
pub struct ExMemory(wasmtime::Memory);

#[verifier::external_type_specification]
#[verifier::external_body]
#[verifier::reject_recursive_types(T)]
pub struct ExStore<T: 'static>(wasmtime::Store<T>);

#[verifier::external_type_specification]
#[verifier::external_body]
pub struct ExError(wasmtime::Error);

/// The host data kept inside a store: the last exit code a guest passed to
/// the process-termination capability, if any.
pub struct SysState {
    pub exit_code: Option<i32>,
}

/// One export of a live instance: its name, and its callable exactly when
/// the export is function-shaped (`None` for memories, globals and tables).
pub struct ExportEntry {
    pub name: String,
    pub func: Option<wasmtime::Func>,
}

/// Whether these bytes compile to a module under this engine. Compilation
/// is a function of the source and the engine's fixed configuration alone.
pub uninterp spec fn module_compiles(engine: wasmtime::Engine, source: Seq<u8>) -> bool;

/// The `(namespace, name)` imports, in declared order, of the module these
/// bytes compile to — a read of the compiled module's static description.
pub uninterp spec fn module_imports_of(engine: wasmtime::Engine, source: Seq<u8>) -> Seq<
    ImportKey,
>;

/// The function-shaped export of this name on this instance, under this
/// store value, if the instance has one. An instance's export set is fixed
/// at instantiation, so this is a function of the three values.
pub uninterp spec fn instance_fn_export(
    store: wasmtime::Store<SysState>,
    instance: wasmtime::Instance,
    name: Seq<char>,
) -> Option<wasmtime::Func>;

/// The memory export of this name on this instance, under this store
/// value, if the instance has one.
pub uninterp spec fn instance_memory_export(
    store: wasmtime::Store<SysState>,
    instance: wasmtime::Instance,
    name: Seq<char>,
) -> Option<wasmtime::Memory>;

/// The bytes a memory holds, from its start to its current size, under
/// this store value: the store owns every linear memory's contents.
pub uninterp spec fn memory_bytes(
    store: wasmtime::Store<SysState>,
    memory: wasmtime::Memory,
) -> Seq<u8>;

/// Whether this store minted this instance. The runtime panics when a
/// store is handed a foreign instance, so every lookup on one requires
/// ownership; a store never relinquishes an instance it minted.
pub uninterp spec fn owns_instance(
    store: wasmtime::Store<SysState>,
    instance: wasmtime::Instance,
) -> bool;

/// Whether this store minted this callable; as for instances, the runtime
/// panics on a foreign callable and ownership is never relinquished.
pub uninterp spec fn owns_func(store: wasmtime::Store<SysState>, f: wasmtime::Func) -> bool;

/// Whether this store minted this memory; as for instances, the runtime
/// panics on a foreign memory and ownership is never relinquished.
pub uninterp spec fn owns_memory(store: wasmtime::Store<SysState>, memory: wasmtime::Memory) -> bool;

/// The host data a store holds.
pub uninterp spec fn store_data(store: wasmtime::Store<SysState>) -> SysState;

/// Records a guest's termination request in the store's host data; the
/// process-termination capability calls this before trapping.
pub(crate) fn record_exit(state: &mut SysState, code: i32)
    ensures
        final(state).exit_code == Some(code),
{
    state.exit_code = Some(code);
}

/// Relies on wasmtime::Engine::new: a fresh execution environment. The
/// configuration keeps linear-memory reservations small and movable, so
/// hosting works under a restricted address space as well; it is fixed and
/// valid, so engine creation does not fail.
#[verifier::external_body]
pub(crate) fn new_engine() -> wasmtime::Engine {
    let mut config = wasmtime::Config::new();
    config.memory_reservation(1 << 24);
    config.memory_guard_size(1 << 16);
    config.memory_may_move(true);
    wasmtime::Engine::new(&config).expect("the fixed engine configuration is valid")
}

/// Relies on wasmtime::Store::new: a fresh store under the engine, holding
/// exactly the given host data.
#[verifier::external_body]
pub(crate) fn new_store(engine: &wasmtime::Engine, data: SysState) -> (r: wasmtime::Store<
    SysState,
>)
    ensures
        store_data(r) == data,
{
    wasmtime::Store::new(engine, data)
}

/// Relies on wasmtime::Module::new and wasmtime::Module::imports: compiles
/// a binary module under the engine — `Err` exactly when the bytes are not
/// a well-formed module — and reads off the imports the module declares,
/// as `(namespace, name)` pairs in declared order.
#[verifier::external_body]
pub(crate) fn compile_module(engine: &wasmtime::Engine, source: &Vec<u8>) -> (r: Result<
    (wasmtime::Module, Vec<ImportKey>),
    wasmtime::Error,
>)
    ensures
        r is Ok <==> module_compiles(*engine, source@),
        r matches Ok(p) ==> p.1@ == module_imports_of(*engine, source@),
{
    let module = wasmtime::Module::new(engine, source.as_slice())?;
    let imports = module.imports().map(
        |i| ImportKey { namespace: i.module().to_string(), name: i.name().to_string() },
    ).collect();
    Ok((module, imports))
}

/// Relies on wasmtime::Instance::new: instantiates the module with the
/// given callables as its positional imports and runs its start routine;
/// `Err` on an import mismatch — a cross-store callable included — or a
/// start-routine fault. A returned instance is the store's own, and the
/// store keeps owning every instance it already owned.
#[verifier::external_body]
pub(crate) fn instantiate(
    store: &mut wasmtime::Store<SysState>,
    module: &wasmtime::Module,
    imports: &Vec<wasmtime::Func>,
) -> (r: Result<wasmtime::Instance, wasmtime::Error>)
    ensures
        r matches Ok(instance) ==> owns_instance(*final(store), instance),
        forall|i2: wasmtime::Instance| #[trigger]
            owns_instance(*old(store), i2) ==> owns_instance(*final(store), i2),
{
    let externs: Vec<wasmtime::Extern> = imports.iter().map(|f| wasmtime::Extern::Func(*f)).collect();
    wasmtime::Instance::new(&mut *store, module, &externs)
}

/// Relies on wasmtime::Instance::get_func: the function-shaped export of
/// that name, if the instance has one. The instance must be the store's
/// own — wasmtime panics on a foreign one, which the `requires` excludes.
/// A returned callable is the store's own, and ownership already held is
/// kept.
#[verifier::external_body]
pub(crate) fn instance_func(
    store: &mut wasmtime::Store<SysState>,
    instance: &wasmtime::Instance,
    name: &str,
) -> (r: Option<wasmtime::Func>)
    requires
        owns_instance(*old(store), *instance),
    ensures
        r == instance_fn_export(*old(store), *instance, name@),
        r matches Some(f) ==> owns_func(*final(store), f),
        forall|i2: wasmtime::Instance| #[trigger]
            owns_instance(*old(store), i2) ==> owns_instance(*final(store), i2),
{
    instance.get_func(&mut *store, name)
}

/// Relies on wasmtime::Instance::exports: every export of the instance by
/// name — wasm export names are distinct — each entry carrying the same
/// callable `get_func` binds to its name exactly when the export is
/// function-shaped. The instance must be the store's own — wasmtime panics
/// on a foreign one, which the `requires` excludes. Every listed callable
/// is the store's own, and ownership already held is kept.
#[verifier::external_body]
pub(crate) fn instance_exports(
    store: &mut wasmtime::Store<SysState>,
    instance: &wasmtime::Instance,
) -> (r: Vec<ExportEntry>)
    requires
        owns_instance(*old(store), *instance),
    ensures
        forall|j: int|
            0 <= j < r@.len() ==> (#[trigger] r@[j].func matches Some(f) ==> owns_func(
                *final(store),
                f,
            )),
        forall|i2: wasmtime::Instance| #[trigger]
            owns_instance(*old(store), i2) ==> owns_instance(*final(store), i2),
        forall|j: int|
            0 <= j < r@.len() ==> #[trigger] r@[j].func == instance_fn_export(
                *old(store),
                *instance,
                r@[j].name@,
            ),
        forall|n: Seq<char>|
            #[trigger] instance_fn_export(*old(store), *instance, n) is Some ==> exists|j: int|
                0 <= j < r@.len() && r@[j].name@ == n,
{
    instance.exports(&mut *store).map(|e| {
        let name = e.name().to_string();
        ExportEntry { name, func: e.into_func() }
    }).collect()
}

/// Relies on wasmtime::Instance::get_memory: the memory export of that
/// name, if the instance has one. The lookup only fills the store's export
/// cache: it adds no export and touches no linear memory, so every export
/// and every memory's contents read the same after it. The instance must
/// be the store's own — wasmtime panics on a foreign one, which the
/// `requires` excludes. A returned memory is the store's own, and
/// ownership already held is kept.
#[verifier::external_body]
pub(crate) fn instance_memory(
    store: &mut wasmtime::Store<SysState>,
    instance: &wasmtime::Instance,
    name: &str,
) -> (r: Option<wasmtime::Memory>)
    requires
        owns_instance(*old(store), *instance),
    ensures
        r == instance_memory_export(*old(store), *instance, name@),
        r matches Some(m) ==> owns_memory(*final(store), m),
        forall|i2: wasmtime::Instance| #[trigger]
            owns_instance(*old(store), i2) ==> owns_instance(*final(store), i2),
        forall|i2: wasmtime::Instance, n2: Seq<char>| #[trigger] instance_memory_export(
            *final(store),
            i2,
            n2,
        ) == instance_memory_export(*old(store), i2, n2),
        forall|m2: wasmtime::Memory| #[trigger] memory_bytes(*final(store), m2) == memory_bytes(
            *old(store),
            m2,
        ),
{
    instance.get_memory(&mut *store, name)
}

/// Relies on wasmtime::Memory::data: a copy of the memory's contents, from
/// its start to its current size. The memory must be the store's own —
/// wasmtime panics on a foreign one, which the `requires` excludes.
#[verifier::external_body]
pub(crate) fn memory_snapshot(
    store: &wasmtime::Store<SysState>,
    memory: &wasmtime::Memory,
) -> (r: Vec<u8>)
    requires
        owns_memory(*store, *memory),
    ensures
        r@ == memory_bytes(*store, *memory),
{
    memory.data(store).to_vec()
}

/// Relies on wasmtime::Func::wrap: builds the process-termination
/// capability. When a guest invokes it with an exit code, the closure
/// records the code in the store's host data through the verified
/// `record_exit` and returns an error, so the call traps and the whole
/// guest call stack unwinds instead of returning normally.
#[verifier::external_body]
pub(crate) fn new_exit_capability(store: &mut wasmtime::Store<SysState>) -> wasmtime::Func {
    wasmtime::Func::wrap(
        &mut *store,
        |mut caller: wasmtime::Caller<'_, SysState>, code: i32| -> Result<(), wasmtime::Error> {
            record_exit(caller.data_mut(), code);
            Err(wasmtime::Error::msg("guest requested termination"))
        },
    )
}

/// Relies on wasmtime::Store::data_mut: takes out of the store's host data
/// exactly the exit code the process-termination capability recorded
/// there, if one was recorded, leaving none behind. Ownership already held
/// is kept.
#[verifier::external_body]
pub(crate) fn take_exit_code(store: &mut wasmtime::Store<SysState>) -> (r: Option<i32>)
    ensures
        r == store_data(*old(store)).exit_code,
        store_data(*final(store)).exit_code is None,
        forall|i2: wasmtime::Instance| #[trigger]
            owns_instance(*old(store), i2) ==> owns_instance(*final(store), i2),
{
    store.data_mut().exit_code.take()
}

/// Relies on wasmtime::TypedFunc::call: invokes an export taking nothing
/// and returning nothing; `Err` on a signature mismatch or a trap. The
/// callable must belong to this store — wasmtime panics on a foreign one,
/// and every call in this crate hands a callable minted by the same host's
/// store.
#[verifier::external_body]
pub(crate) fn call_func0(store: &mut wasmtime::Store<SysState>, f: &wasmtime::Func) -> (r: Result<
    (),
    wasmtime::Error,
>)
    requires
        owns_func(*old(store), *f),
    ensures
        forall|i2: wasmtime::Instance| #[trigger]
            owns_instance(*old(store), i2) ==> owns_instance(*final(store), i2),
{
    f.typed::<(), ()>(&*store)?.call(&mut *store, ())
}

/// Relies on wasmtime::TypedFunc::call: invokes an export taking one
/// integer and returning nothing; `Err` on a signature mismatch or a trap.
/// The callable must be the store's own — wasmtime panics on a foreign
/// one, which the `requires` excludes. Ownership already held is kept.
#[verifier::external_body]
pub(crate) fn call_func1(
    store: &mut wasmtime::Store<SysState>,
    f: &wasmtime::Func,
    a: i32,
) -> (r: Result<(), wasmtime::Error>)
    requires
        owns_func(*old(store), *f),
    ensures
        forall|i2: wasmtime::Instance| #[trigger]
            owns_instance(*old(store), i2) ==> owns_instance(*final(store), i2),
{
    f.typed::<i32, ()>(&*store)?.call(&mut *store, a)
}

/// Relies on wasmtime::TypedFunc::call: invokes an export taking two
/// integers and returning nothing; `Err` on a signature mismatch or a
/// trap. The callable must be the store's own — wasmtime panics on a
/// foreign one, which the `requires` excludes. Ownership already held is
/// kept.
#[verifier::external_body]
pub(crate) fn call_func2(
    store: &mut wasmtime::Store<SysState>,
    f: &wasmtime::Func,
    a: i32,
    b: i32,
) -> (r: Result<(), wasmtime::Error>)
    requires
        owns_func(*old(store), *f),
    ensures
        forall|i2: wasmtime::Instance| #[trigger]
            owns_instance(*old(store), i2) ==> owns_instance(*final(store), i2),
{
    f.typed::<(i32, i32), ()>(&*store)?.call(&mut *store, (a, b))
}

/// Relies on wasmtime::TypedFunc::call: invokes an export taking three
/// integers and returning nothing; `Err` on a signature mismatch or a
/// trap. The callable must be the store's own — wasmtime panics on a
/// foreign one, which the `requires` excludes. Ownership already held is
/// kept.
#[verifier::external_body]
pub(crate) fn call_func3(
    store: &mut wasmtime::Store<SysState>,
    f: &wasmtime::Func,
    a: i32,
    b: i32,
    c: i32,
) -> (r: Result<(), wasmtime::Error>)
    requires
        owns_func(*old(store), *f),
    ensures
        forall|i2: wasmtime::Instance| #[trigger]
            owns_instance(*old(store), i2) ==> owns_instance(*final(store), i2),
{
    f.typed::<(i32, i32, i32), ()>(&*store)?.call(&mut *store, (a, b, c))
}

/// Relies on wasmtime::TypedFunc::call: invokes an export taking nothing
/// and returning one integer; `Err` on a signature mismatch or a trap. The
/// callable must belong to this store — wasmtime panics on a foreign one,
/// and every call in this crate hands a callable minted by the same host's
/// store.
#[verifier::external_body]
pub(crate) fn call_func0_ret(
    store: &mut wasmtime::Store<SysState>,
    f: &wasmtime::Func,
) -> (r: Result<i32, wasmtime::Error>)
    requires
        owns_func(*old(store), *f),
    ensures
        forall|i2: wasmtime::Instance| #[trigger]
            owns_instance(*old(store), i2) ==> owns_instance(*final(store), i2),
{
    f.typed::<(), i32>(&*store)?.call(&mut *store, ())
}

/// Relies on wasmtime::TypedFunc::call: invokes an export taking two
/// integers and returning one; `Err` on a signature mismatch or a trap.
/// The callable must be the store's own — wasmtime panics on a foreign
/// one, which the `requires` excludes. Ownership already held is kept.
#[verifier::external_body]
pub(crate) fn call_func2_ret(
    store: &mut wasmtime::Store<SysState>,
    f: &wasmtime::Func,
    a: i32,
    b: i32,
) -> (r: Result<i32, wasmtime::Error>)
    requires
        owns_func(*old(store), *f),
    ensures
        forall|i2: wasmtime::Instance| #[trigger]
            owns_instance(*old(store), i2) ==> owns_instance(*final(store), i2),
{
    f.typed::<(i32, i32), i32>(&*store)?.call(&mut *store, (a, b))
}

/// Relies on the Display of wasmtime's error type: a readable description
/// of the failure, for diagnostics only.
#[verifier::external_body]
pub(crate) fn error_message(e: &wasmtime::Error) -> String {
    format!("{}", e)
}

} // verus!
