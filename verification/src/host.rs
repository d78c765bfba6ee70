use vstd::prelude::*;

use crate::capability::CapabilityModule;
use crate::capability::capability_module_of_exports;
use crate::capability::lemma_exports_exactly_functions;
use crate::capability::lemma_exports_map_value;
use crate::errors::HostError;
use crate::externals::SysState;
use crate::externals::call_func0;
use crate::externals::call_func0_ret;
use crate::externals::call_func1;
use crate::externals::call_func2;
use crate::externals::call_func2_ret;
use crate::externals::call_func3;
use crate::externals::compile_module;
use crate::externals::error_message;
use crate::externals::instance_exports;
use crate::externals::instance_fn_export;
use crate::externals::instance_func;
use crate::externals::instance_memory;
use crate::externals::instance_memory_export;
use crate::externals::instantiate;
use crate::externals::memory_bytes;
use crate::externals::memory_snapshot;
use crate::externals::module_compiles;
use crate::externals::module_imports_of;
use crate::externals::new_engine;
use crate::externals::new_exit_capability;
use crate::externals::new_store;
use crate::externals::owns_func;
use crate::externals::owns_instance;
use crate::externals::take_exit_code;
use crate::handles::HandleTable;
use crate::handles::Unit;
use crate::marshal::read_range;
use crate::registry::CapabilityRegistry;
use crate::registry::import_met;
use crate::registry::link_error_names;

verus! {

/// The name of the fixed system-call compatibility namespace.
pub open spec fn sys_namespace() -> Seq<char> {
    "sys"@
}

/// The name of the process-termination capability within it.
pub open spec fn sys_exit_name() -> Seq<char> {
    "exit"@
}

/// The one export name under which a unit exposes addressable memory.
pub open spec fn memory_export_name() -> Seq<char> {
    "memory"@
}

/// A registry as the link step sees it: augmented with the fixed
/// system-call namespace, which is always present and overrides any
/// caller-supplied namespace of the same name.
pub open spec fn with_sys(
    reg: Map<Seq<char>, Map<Seq<char>, wasmtime::Func>>,
    exit: wasmtime::Func,
) -> Map<Seq<char>, Map<Seq<char>, wasmtime::Func>> {
    reg.insert(
        sys_namespace(),
        Map::<Seq<char>, wasmtime::Func>::empty().insert(sys_exit_name(), exit),
    )
}

/// How building a unit from `source` against `reg` may end (`None` for
/// success). A compile failure comes exactly when the source does not
/// compile under the engine; a link failure comes only from a compiling
/// source and names the first of its declared imports that the augmented
/// registry leaves unmet; success, an instantiation failure and a guest
/// termination request all presuppose a compiling source whose every
/// declared import is met — which of the three it is lies with the
/// module's own start routine and the runtime, not with this layer.
pub open spec fn build_outcome_ok(
    engine: wasmtime::Engine,
    source: Seq<u8>,
    reg: Map<Seq<char>, Map<Seq<char>, wasmtime::Func>>,
    exit: wasmtime::Func,
    outcome: Option<HostError>,
) -> bool {
    let aug = with_sys(reg, exit);
    let imps = module_imports_of(engine, source);
    match outcome {
        None => module_compiles(engine, source) && (forall|i: int|
            0 <= i < imps.len() ==> import_met(aug, #[trigger] imps[i])),
        Some(e) => match e {
            HostError::CompileError(_) => !module_compiles(engine, source),
            HostError::LinkError(le) => module_compiles(engine, source) && (exists|k: int|
                0 <= k < imps.len() && !import_met(aug, #[trigger] imps[k]) && (forall|j: int|
                    0 <= j < k ==> import_met(aug, #[trigger] imps[j])) && link_error_names(
                    aug,
                    imps[k],
                    le,
                )),
            HostError::InstantiationError(_) => module_compiles(engine, source) && (forall|i: int|
                0 <= i < imps.len() ==> import_met(aug, #[trigger] imps[i])),
            HostError::GuestExit(_) => module_compiles(engine, source) && (forall|i: int|
                0 <= i < imps.len() ==> import_met(aug, #[trigger] imps[i])),
            _ => false,
        },
    }
}

/// How an invocation through the handle table may fail: a fatal
/// `InvalidHandle` naming the handle exactly when no allocation has
/// returned it; `ExportNotFound` naming the operation and the unit's
/// identity exactly when the unit is not live or has no function-shaped
/// export of that name; and a guest termination request or a trap only
/// from a live unit that does export the operation.
pub open spec fn invoke_error_ok(h: Host, handle: usize, op: Seq<char>, e: HostError) -> bool {
    match e {
        HostError::InvalidHandle(hh) => hh == handle && handle >= h@.len(),
        HostError::ExportNotFound(n, id) => handle < h@.len() && n@ == op && id@ == h@[
            handle as int
        ].identity@ && h.unit_export(handle as int, op) is None,
        HostError::GuestExit(_) => handle < h@.len() && h.unit_export(handle as int, op) is Some,
        HostError::Trap(_) => handle < h@.len() && h.unit_export(handle as int, op) is Some,
        _ => false,
    }
}

/// Sorts a failed guest call: a recorded termination request becomes
/// `GuestExit` carrying the guest's code, any other fault a trap carrying
/// the runtime's description.
pub fn classify_guest_failure(exit: Option<i32>, message: String) -> (e: HostError)
    ensures
        match exit {
            Some(code) => e == HostError::GuestExit(code),
            None => e matches HostError::Trap(m) && m@ == message@,
        },
{
    match exit {
        Some(code) => HostError::GuestExit(code),
        None => HostError::Trap(message),
    }
}

/// Sorts a failed instantiation: a termination request made by the start
/// routine becomes `GuestExit`, any other fault an instantiation error.
pub fn classify_instantiation_failure(exit: Option<i32>, message: String) -> (e: HostError)
    ensures
        match exit {
            Some(code) => e == HostError::GuestExit(code),
            None => e matches HostError::InstantiationError(m) && m@ == message@,
        },
{
    match exit {
        Some(code) => HostError::GuestExit(code),
        None => HostError::InstantiationError(message),
    }
}

/// One shared execution context and the arena of units living under it.
///
/// Every unit a host holds is compiled and instantiated under the same
/// context, so their exports can be wired into one another's imports;
/// callers address units by the dense handles the arena hands out. Every
/// callable, instance and memory the host deals out was minted by its own
/// store, as the trusted layer requires.
pub struct Host {
    engine: wasmtime::Engine,
    store: wasmtime::Store<SysState>,
    exit_capability: wasmtime::Func,
    table: HandleTable,
}

impl View for Host {
    type V = Seq<Unit>;

    closed spec fn view(&self) -> Seq<Unit> {
        self.table@
    }
}

impl Host {
    /// The process-termination capability built into this host; the link
    /// step exposes it under the fixed system-call namespace.
    pub closed spec fn exit_capability(&self) -> wasmtime::Func {
        self.exit_capability
    }

    /// The shared compilation context every unit of this host lives under.
    pub closed spec fn context(&self) -> wasmtime::Engine {
        self.engine
    }

    /// Well-formedness: every live unit's instance was minted by this
    /// host's own store, so the trusted lookups and calls on it cannot hit
    /// the runtime's foreign-value panics. `new` establishes it and every
    /// method keeps it.
    pub closed spec fn wf(&self) -> bool {
        forall|h: int|
            #![trigger self.table@[h]]
            0 <= h < self.table@.len() ==> (self.table@[h].instance matches Some(instance)
                ==> owns_instance(self.store, instance))
    }

    /// Whether this host's store minted the callable.
    pub closed spec fn owns_callable(&self, f: wasmtime::Func) -> bool {
        owns_func(self.store, f)
    }

    /// The function-shaped export this unit binds to `name`, if the handle
    /// is valid, the unit live, and such an export present.
    pub closed spec fn unit_export(&self, handle: int, name: Seq<char>) -> Option<wasmtime::Func> {
        if 0 <= handle < self.table@.len() {
            match self.table@[handle].instance {
                Some(instance) => instance_fn_export(self.store, instance, name),
                None => None,
            }
        } else {
            None
        }
    }

    /// The current contents of the addressable memory this unit exports
    /// under the conventional name, if the handle is valid, the unit live,
    /// and such an export present.
    pub closed spec fn unit_memory(&self, handle: int) -> Option<Seq<u8>> {
        if 0 <= handle < self.table@.len() {
            match self.table@[handle].instance {
                Some(instance) => match instance_memory_export(
                    self.store,
                    instance,
                    memory_export_name(),
                ) {
                    Some(memory) => Some(memory_bytes(self.store, memory)),
                    None => None,
                },
                None => None,
            }
        } else {
            None
        }
    }

    /// A fresh execution context with no units allocated yet.
    pub fn new() -> (r: Host)
        ensures
            r@ =~= Seq::<Unit>::empty(),
            r.wf(),
    {
        let engine = new_engine();
        let mut store = new_store(&engine, (SysState { exit_code: None }));
        let exit_capability = new_exit_capability(&mut store);
        Host { engine, store, exit_capability, table: HandleTable::new() }
    }

    /// The handle the next allocation will use. A caller whose imports
    /// must refer back to the unit it is about to construct names the unit
    /// by this handle before constructing it.
    pub fn next_handle(&self) -> (h: usize)
        ensures
            h == self@.len(),
    {
        self.table.next_handle()
    }

    /// Allocates an empty unit and returns its handle; instantiation is
    /// deferred to `initialize`.
    pub fn create(&mut self) -> (h: usize)
        requires
            old(self).wf(),
        ensures
            final(self).wf(),
            h == old(self)@.len(),
            final(self)@.len() == old(self)@.len() + 1,
            forall|i: int| 0 <= i < old(self)@.len() ==> final(self)@[i] == old(self)@[i],
            final(self)@[h as int].identity@ =~= Seq::<char>::empty(),
            !final(self)@[h as int].is_initialized(),
            final(self).exit_capability() == old(self).exit_capability(),
            final(self).context() == old(self).context(),
    {
        let unit = Unit { identity: String::new(), instance: None };
        self.table.allocate(unit)
    }

    /// Compiles the source, links the module's declared imports against
    /// the registry augmented with the fixed system-call namespace, and
    /// instantiates it, running its start routine.
    fn build_unit(&mut self, identity: &str, source: &Vec<u8>, registry: CapabilityRegistry) -> (r:
        Result<Unit, HostError>)
        requires
            old(self).wf(),
        ensures
            final(self).wf(),
            final(self)@ == old(self)@,
            final(self).exit_capability() == old(self).exit_capability(),
            final(self).context() == old(self).context(),
            match r {
                Ok(u) => u.identity@ == identity@ && u.is_initialized() && (u.instance matches
                Some(instance) ==> owns_instance(final(self).store, instance)) && build_outcome_ok(
                    old(self).context(),
                    source@,
                    registry@,
                    old(self).exit_capability(),
                    None,
                ),
                Err(e) => build_outcome_ok(
                    old(self).context(),
                    source@,
                    registry@,
                    old(self).exit_capability(),
                    Some(e),
                ),
            },
    {
        let pair = match compile_module(&self.engine, source) {
            Ok(p) => p,
            Err(e) => {
                let msg = error_message(&e);
                return Err(HostError::CompileError(msg));
            },
        };
        let module = pair.0;
        let imports = pair.1;
        let mut sys_module = CapabilityModule::new();
        sys_module.add_func("exit".to_owned(), self.exit_capability);
        let mut linked = registry;
        linked.add_namespace("sys".to_owned(), sys_module);
        proof {
            assert(linked@ =~= with_sys(registry@, old(self).exit_capability()));
        }
        let funcs = match linked.resolve(&imports) {
            Ok(fs) => {
                proof {
                    let aug = with_sys(registry@, old(self).exit_capability());
                    let imps = module_imports_of(old(self).context(), source@);
                    assert(imps == imports@);
                    assert forall|i: int| 0 <= i < imps.len() implies import_met(
                        aug,
                        #[trigger] imps[i],
                    ) by {
                        assert(imps[i] == imports@[i]);
                        assert(import_met(linked@, imports@[i]));
                    }
                }
                fs
            },
            Err(le) => {
                proof {
                    let aug = with_sys(registry@, old(self).exit_capability());
                    let imps = module_imports_of(old(self).context(), source@);
                    assert(imps == imports@);
                    let ki = choose|k: int|
                        0 <= k < imports@.len() && !import_met(linked@, #[trigger] imports@[k]) && (
                        forall|j: int| 0 <= j < k ==> import_met(linked@, #[trigger] imports@[j]))
                            && link_error_names(linked@, imports@[k], le);
                    assert(0 <= ki < imps.len() && !import_met(aug, #[trigger] imps[ki]) && (
                    forall|j: int| 0 <= j < ki ==> import_met(aug, #[trigger] imps[j]))
                        && link_error_names(aug, imps[ki], le));
                }
                return Err(HostError::LinkError(le));
            },
        };
        match instantiate(&mut self.store, &module, &funcs) {
            Ok(instance) => Ok(Unit { identity: identity.to_owned(), instance: Some(instance) }),
            Err(e) => {
                let msg = error_message(&e);
                let exit = take_exit_code(&mut self.store);
                Err(classify_instantiation_failure(exit, msg))
            },
        }
    }

    /// Compiles `source` into a module, resolves the registry — augmented
    /// with the always-present system-call namespace — against the
    /// module's declared imports, instantiates it, and stores the live
    /// instantiation into the unit `handle` addresses. Each unit is
    /// initialized exactly once. `build_outcome_ok` fixes when each
    /// outcome may come: a compile failure exactly on a non-compiling
    /// source, a link failure naming the first unmet declared import, and
    /// the rest only from a compiling, fully linked module.
    pub fn initialize(
        &mut self,
        handle: usize,
        identity: &str,
        source: &Vec<u8>,
        registry: CapabilityRegistry,
    ) -> (r: Result<(), HostError>)
        requires
            old(self).wf(),
            handle < old(self)@.len(),
            !old(self)@[handle as int].is_initialized(),
        ensures
            final(self).wf(),
            final(self)@.len() == old(self)@.len(),
            forall|i: int|
                0 <= i < old(self)@.len() && i != handle ==> final(self)@[i] == old(self)@[i],
            final(self).exit_capability() == old(self).exit_capability(),
            final(self).context() == old(self).context(),
            match r {
                Ok(_) => final(self)@[handle as int].identity@ == identity@ && final(self)@[
                    handle as int
                ].is_initialized() && build_outcome_ok(
                    old(self).context(),
                    source@,
                    registry@,
                    old(self).exit_capability(),
                    None,
                ),
                Err(e) => final(self)@ == old(self)@ && build_outcome_ok(
                    old(self).context(),
                    source@,
                    registry@,
                    old(self).exit_capability(),
                    Some(e),
                ),
            },
    {
        match self.build_unit(identity, source, registry) {
            Ok(unit) => {
                self.table.put(handle, unit);
                Ok(())
            },
            Err(e) => Err(e),
        }
    }

    /// Creates a unit from the given source, initializes it against the
    /// registry the caller built — possibly referring to the unit's own
    /// forthcoming handle, `next_handle` — appends it to the table and
    /// returns its handle. A failed initialization is propagated and
    /// allocates nothing, so handles stay dense: n successful
    /// constructions into an empty host yield the handles 0 through n - 1
    /// in allocation order (`lemma_dense_allocation` states the n-fold
    /// law). Each outcome is fixed by `build_outcome_ok` as under
    /// `initialize`.
    pub fn construct(&mut self, identity: &str, source: &Vec<u8>, registry: CapabilityRegistry) -> (r:
        Result<usize, HostError>)
        requires
            old(self).wf(),
        ensures
            final(self).wf(),
            final(self).exit_capability() == old(self).exit_capability(),
            final(self).context() == old(self).context(),
            match r {
                Ok(h) => h == old(self)@.len() && final(self)@.len() == old(self)@.len() + 1 && (
                forall|i: int| 0 <= i < old(self)@.len() ==> final(self)@[i] == old(self)@[i])
                    && final(self)@[h as int].identity@ == identity@ && final(self)@[
                    h as int
                ].is_initialized() && build_outcome_ok(
                    old(self).context(),
                    source@,
                    registry@,
                    old(self).exit_capability(),
                    None,
                ),
                Err(e) => final(self)@ == old(self)@ && build_outcome_ok(
                    old(self).context(),
                    source@,
                    registry@,
                    old(self).exit_capability(),
                    Some(e),
                ),
            },
    {
        match self.build_unit(identity, source, registry) {
            Ok(unit) => Ok(self.table.allocate(unit)),
            Err(e) => Err(e),
        }
    }

    /// The callable bound to an exported name of a live unit: `Ok` with
    /// that export's callable exactly when the handle is valid, the unit
    /// live and a function-shaped export of that name present. Fails with
    /// `InvalidHandle` on an unallocated handle, and with `ExportNotFound`
    /// — naming the export and the unit's identity — in the remaining
    /// cases.
    pub fn get_export(&mut self, handle: usize, name: &str) -> (r: Result<wasmtime::Func, HostError>)
        requires
            old(self).wf(),
        ensures
            final(self).wf(),
            final(self)@ == old(self)@,
            final(self).exit_capability() == old(self).exit_capability(),
            match r {
                Ok(f) => handle < old(self)@.len() && old(self)@[handle as int].is_initialized()
                    && old(self).unit_export(handle as int, name@) == Some(f)
                    && final(self).owns_callable(f),
                Err(e) => match e {
                    HostError::InvalidHandle(h) => h == handle && handle >= old(self)@.len(),
                    HostError::ExportNotFound(n, id) => handle < old(self)@.len() && n@ == name@
                        && id@ == old(self)@[handle as int].identity@ && old(self).unit_export(
                        handle as int,
                        name@,
                    ) is None,
                    _ => false,
                },
            },
    {
        let unit = match self.table.get(handle) {
            Ok(u) => u,
            Err(e) => {
                return Err(e);
            },
        };
        let identity = unit.identity.clone();
        let instance = match &unit.instance {
            Some(i) => *i,
            None => {
                return Err(HostError::ExportNotFound(name.to_owned(), identity));
            },
        };
        match instance_func(&mut self.store, &instance, name) {
            Some(f) => Ok(f),
            None => Err(HostError::ExportNotFound(name.to_owned(), identity)),
        }
    }

    /// Converts every function-shaped export of a live unit into a
    /// capability module: the composition primitive, whose result is
    /// suitable for `CapabilityRegistry::add_namespace`. The result binds
    /// exactly the names the unit exports function-shaped, each to that
    /// export's callable; non-function exports, such as memories, are
    /// skipped silently.
    pub fn export_capability_module(&mut self, handle: usize) -> (r: CapabilityModule)
        requires
            old(self).wf(),
            handle < old(self)@.len(),
            old(self)@[handle as int].is_initialized(),
        ensures
            final(self).wf(),
            final(self)@ == old(self)@,
            final(self).exit_capability() == old(self).exit_capability(),
            forall|n: Seq<char>|
                #![trigger r@.contains_key(n)]
                #![trigger old(self).unit_export(handle as int, n)]
                match old(self).unit_export(handle as int, n) {
                    Some(f) => r@.contains_key(n) && r@[n] == f,
                    None => !r@.contains_key(n),
                },
    {
        let unit = self.table.borrow_unit(handle);
        let instance = unit.instance.unwrap();
        let entries = instance_exports(&mut self.store, &instance);
        let out = capability_module_of_exports(&entries);
        proof {
            assert forall|n: Seq<char>|
                #![trigger old(self).unit_export(handle as int, n)]
                #![trigger out@.contains_key(n)]
                match old(self).unit_export(handle as int, n) {
                    Some(f) => out@.contains_key(n) && out@[n] == f,
                    None => !out@.contains_key(n),
                } by {
                match instance_fn_export(old(self).store, instance, n) {
                    Some(f) => {
                        assert forall|j: int|
                            0 <= j < entries@.len() && entries@[j].name@ == n implies entries@[
                            j
                        ].func == Some(f) by {
                            assert(entries@[j].func == instance_fn_export(
                                old(self).store,
                                instance,
                                entries@[j].name@,
                            ));
                        }
                        lemma_exports_map_value(entries@, n, f);
                    },
                    None => {
                        lemma_exports_exactly_functions(entries@, n);
                        if out@.contains_key(n) {
                            let j = choose|j: int|
                                0 <= j < entries@.len() && entries@[j].name@ == n && entries@[
                                j
                            ].func is Some;
                            assert(entries@[j].func == instance_fn_export(
                                old(self).store,
                                instance,
                                n,
                            ));
                            assert(false);
                        }
                    },
                }
            }
        }
        out
    }

    /// Copies `[offset, offset + length)` out of the addressable memory
    /// the unit exports under the conventional name "memory": `Ok` with
    /// exactly that byte range of the memory's current contents when the
    /// range lies within them. Fails with `InvalidHandle` on an
    /// unallocated handle, `NoMemoryExport` exactly when the unit is not
    /// live or exposes no such memory, and `OutOfBounds` exactly when the
    /// range exceeds the memory's current size. Reading marshals a copy
    /// and leaves every unit's memory as it was.
    pub fn read_memory(&mut self, handle: usize, offset: usize, length: usize) -> (r: Result<
        Vec<u8>,
        HostError,
    >)
        requires
            old(self).wf(),
        ensures
            final(self).wf(),
            final(self)@ == old(self)@,
            final(self).exit_capability() == old(self).exit_capability(),
            forall|h: int| #[trigger]
                final(self).unit_memory(h) == old(self).unit_memory(h),
            match r {
                Ok(bytes) => handle < old(self)@.len() && (old(self).unit_memory(handle as int)
                    matches Some(mem) && offset + length <= mem.len() && bytes@ == mem.subrange(
                    offset as int,
                    offset + length,
                )),
                Err(e) => match e {
                    HostError::InvalidHandle(h) => h == handle && handle >= old(self)@.len(),
                    HostError::NoMemoryExport => handle < old(self)@.len() && old(
                        self,
                    ).unit_memory(handle as int) is None,
                    HostError::OutOfBounds => handle < old(self)@.len() && (old(self).unit_memory(
                        handle as int,
                    ) matches Some(mem) && offset + length > mem.len()),
                    _ => false,
                },
            },
    {
        let unit = match self.table.get(handle) {
            Ok(u) => u,
            Err(e) => {
                return Err(e);
            },
        };
        let instance = match &unit.instance {
            Some(i) => *i,
            None => {
                return Err(HostError::NoMemoryExport);
            },
        };
        let memory = match instance_memory(&mut self.store, &instance, "memory") {
            Some(m) => m,
            None => {
                return Err(HostError::NoMemoryExport);
            },
        };
        let snapshot = memory_snapshot(&self.store, &memory);
        read_range(&snapshot, offset, length)
    }

    /// Invokes the export named `op` on the unit `handle` addresses, with
    /// no arguments and no result.
    pub fn invoke0(&mut self, handle: usize, op: &str) -> (r: Result<(), HostError>)
        requires
            old(self).wf(),
        ensures
            final(self).wf(),
            final(self)@ == old(self)@,
            final(self).exit_capability() == old(self).exit_capability(),
            match r {
                Ok(_) => handle < old(self)@.len() && old(self)@[handle as int].is_initialized()
                    && old(self).unit_export(handle as int, op@) is Some,
                Err(e) => invoke_error_ok(*old(self), handle, op@, e),
            },
    {
        let f = match self.get_export(handle, op) {
            Ok(f) => f,
            Err(e) => {
                return Err(e);
            },
        };
        match call_func0(&mut self.store, &f) {
            Ok(_) => Ok(()),
            Err(e) => {
                let msg = error_message(&e);
                let exit = take_exit_code(&mut self.store);
                Err(classify_guest_failure(exit, msg))
            },
        }
    }

    /// Invokes the export named `op` with one integer argument.
    pub fn invoke1(&mut self, handle: usize, op: &str, a: i32) -> (r: Result<(), HostError>)
        requires
            old(self).wf(),
        ensures
            final(self).wf(),
            final(self)@ == old(self)@,
            final(self).exit_capability() == old(self).exit_capability(),
            match r {
                Ok(_) => handle < old(self)@.len() && old(self)@[handle as int].is_initialized()
                    && old(self).unit_export(handle as int, op@) is Some,
                Err(e) => invoke_error_ok(*old(self), handle, op@, e),
            },
    {
        let f = match self.get_export(handle, op) {
            Ok(f) => f,
            Err(e) => {
                return Err(e);
            },
        };
        match call_func1(&mut self.store, &f, a) {
            Ok(_) => Ok(()),
            Err(e) => {
                let msg = error_message(&e);
                let exit = take_exit_code(&mut self.store);
                Err(classify_guest_failure(exit, msg))
            },
        }
    }

    /// Invokes the export named `op` with two integer arguments.
    pub fn invoke2(&mut self, handle: usize, op: &str, a: i32, b: i32) -> (r: Result<(), HostError>)
        requires
            old(self).wf(),
        ensures
            final(self).wf(),
            final(self)@ == old(self)@,
            final(self).exit_capability() == old(self).exit_capability(),
            match r {
                Ok(_) => handle < old(self)@.len() && old(self)@[handle as int].is_initialized()
                    && old(self).unit_export(handle as int, op@) is Some,
                Err(e) => invoke_error_ok(*old(self), handle, op@, e),
            },
    {
        let f = match self.get_export(handle, op) {
            Ok(f) => f,
            Err(e) => {
                return Err(e);
            },
        };
        match call_func2(&mut self.store, &f, a, b) {
            Ok(_) => Ok(()),
            Err(e) => {
                let msg = error_message(&e);
                let exit = take_exit_code(&mut self.store);
                Err(classify_guest_failure(exit, msg))
            },
        }
    }

    /// Invokes the export named `op` with three integer arguments.
    pub fn invoke3(&mut self, handle: usize, op: &str, a: i32, b: i32, c: i32) -> (r: Result<
        (),
        HostError,
    >)
        requires
            old(self).wf(),
        ensures
            final(self).wf(),
            final(self)@ == old(self)@,
            final(self).exit_capability() == old(self).exit_capability(),
            match r {
                Ok(_) => handle < old(self)@.len() && old(self)@[handle as int].is_initialized()
                    && old(self).unit_export(handle as int, op@) is Some,
                Err(e) => invoke_error_ok(*old(self), handle, op@, e),
            },
    {
        let f = match self.get_export(handle, op) {
            Ok(f) => f,
            Err(e) => {
                return Err(e);
            },
        };
        match call_func3(&mut self.store, &f, a, b, c) {
            Ok(_) => Ok(()),
            Err(e) => {
                let msg = error_message(&e);
                let exit = take_exit_code(&mut self.store);
                Err(classify_guest_failure(exit, msg))
            },
        }
    }

    /// Invokes the export named `op` with no arguments, returning the
    /// guest's integer result unchanged.
    pub fn invoke0_ret(&mut self, handle: usize, op: &str) -> (r: Result<i32, HostError>)
        requires
            old(self).wf(),
        ensures
            final(self).wf(),
            final(self)@ == old(self)@,
            final(self).exit_capability() == old(self).exit_capability(),
            match r {
                Ok(_) => handle < old(self)@.len() && old(self)@[handle as int].is_initialized()
                    && old(self).unit_export(handle as int, op@) is Some,
                Err(e) => invoke_error_ok(*old(self), handle, op@, e),
            },
    {
        let f = match self.get_export(handle, op) {
            Ok(f) => f,
            Err(e) => {
                return Err(e);
            },
        };
        match call_func0_ret(&mut self.store, &f) {
            Ok(v) => Ok(v),
            Err(e) => {
                let msg = error_message(&e);
                let exit = take_exit_code(&mut self.store);
                Err(classify_guest_failure(exit, msg))
            },
        }
    }

    /// Invokes the export named `op` with two integer arguments, returning
    /// the guest's integer result unchanged.
    pub fn invoke2_ret(&mut self, handle: usize, op: &str, a: i32, b: i32) -> (r: Result<
        i32,
        HostError,
    >)
        requires
            old(self).wf(),
        ensures
            final(self).wf(),
            final(self)@ == old(self)@,
            final(self).exit_capability() == old(self).exit_capability(),
            match r {
                Ok(_) => handle < old(self)@.len() && old(self)@[handle as int].is_initialized()
                    && old(self).unit_export(handle as int, op@) is Some,
                Err(e) => invoke_error_ok(*old(self), handle, op@, e),
            },
    {
        let f = match self.get_export(handle, op) {
            Ok(f) => f,
            Err(e) => {
                return Err(e);
            },
        };
        match call_func2_ret(&mut self.store, &f, a, b) {
            Ok(v) => Ok(v),
            Err(e) => {
                let msg = error_message(&e);
                let exit = take_exit_code(&mut self.store);
                Err(classify_guest_failure(exit, msg))
            },
        }
    }
}

} // verus!
