use vstd::prelude::*;

use crate::capability::CapabilityModule;
use crate::capability::find_last;
use crate::errors::LinkError;

verus! {

/// One declared import of a module: the namespace it is grouped under and
/// the capability name within that namespace.
pub struct ImportKey {
    pub namespace: String,
    pub name: String,
}

/// The two-level mapping that a table of named capability modules denotes:
/// namespace name to capability mapping, later entries winning.
pub open spec fn registry_map(s: Seq<(String, CapabilityModule)>) -> Map<
    Seq<char>,
    Map<Seq<char>, wasmtime::Func>,
>
    decreases s.len(),
{
    if s.len() == 0 {
        Map::<Seq<char>, Map<Seq<char>, wasmtime::Func>>::empty()
    } else {
        registry_map(s.drop_last()).insert(s.last().0@, s.last().1@)
    }
}

/// A winning entry is the one the denoted registry holds for its namespace.
pub proof fn lemma_registry_map_found(s: Seq<(String, CapabilityModule)>, i: int, name: Seq<char>)
    requires
        0 <= i < s.len(),
        s[i].0@ == name,
        forall|j: int| i < j < s.len() ==> s[j].0@ != name,
    ensures
        registry_map(s).contains_key(name),
        registry_map(s)[name] == s[i].1@,
    decreases s.len(),
{
    if i == s.len() - 1 {
    } else {
        assert(s.drop_last()[i] == s[i]);
        assert(forall|j: int| i < j < s.drop_last().len() ==> s.drop_last()[j] == s[j]);
        lemma_registry_map_found(s.drop_last(), i, name);
    }
}

/// A namespace carried by no entry is absent from the denoted registry.
pub proof fn lemma_registry_map_absent(s: Seq<(String, CapabilityModule)>, name: Seq<char>)
    requires
        forall|j: int| 0 <= j < s.len() ==> s[j].0@ != name,
    ensures
        !registry_map(s).contains_key(name),
    decreases s.len(),
{
    if s.len() > 0 {
        assert(forall|j: int| 0 <= j < s.drop_last().len() ==> s.drop_last()[j] == s[j]);
        lemma_registry_map_absent(s.drop_last(), name);
    }
}

/// Whether a registry satisfies one declared import.
pub open spec fn import_met(
    reg: Map<Seq<char>, Map<Seq<char>, wasmtime::Func>>,
    k: ImportKey,
) -> bool {
    reg.contains_key(k.namespace@) && reg[k.namespace@].contains_key(k.name@)
}

/// The callable a registry binds to a met import.
pub open spec fn import_value(
    reg: Map<Seq<char>, Map<Seq<char>, wasmtime::Func>>,
    k: ImportKey,
) -> wasmtime::Func {
    reg[k.namespace@][k.name@]
}

/// Whether a link failure names the unmet import as the registry's state
/// demands: the namespace alone when the namespace is absent, the namespace
/// and the capability name when the namespace lacks the name.
pub open spec fn link_error_names(
    reg: Map<Seq<char>, Map<Seq<char>, wasmtime::Func>>,
    k: ImportKey,
    e: LinkError,
) -> bool {
    if reg.contains_key(k.namespace@) {
        e matches LinkError::MissingCapability(ns, nm) && ns@ == k.namespace@ && nm@ == k.name@
    } else {
        e matches LinkError::MissingNamespace(ns) && ns@ == k.namespace@
    }
}

/// A mapping from namespace name to capability module, used to satisfy a
/// module's declared imports. Built incrementally by the driver before a
/// unit is initialized; adding a namespace under an existing name replaces
/// it (last write wins).
pub struct CapabilityRegistry {
    entries: Vec<(String, CapabilityModule)>,
}

impl View for CapabilityRegistry {
    type V = Map<Seq<char>, Map<Seq<char>, wasmtime::Func>>;

    closed spec fn view(&self) -> Map<Seq<char>, Map<Seq<char>, wasmtime::Func>> {
        registry_map(self.entries@)
    }
}

impl CapabilityRegistry {
    pub fn new() -> (r: CapabilityRegistry)
        ensures
            r@ == Map::<Seq<char>, Map<Seq<char>, wasmtime::Func>>::empty(),
    {
        CapabilityRegistry { entries: Vec::new() }
    }

    /// Inserts or replaces the capability module registered under `name`.
    /// There is no error case: the last write wins.
    pub fn add_namespace(&mut self, name: String, module: CapabilityModule)
        ensures
            final(self)@ == old(self)@.insert(name@, module@),
    {
        self.entries.push((name, module));
        proof {
            assert(self.entries@.drop_last() =~= old(self).entries@);
        }
    }

    /// Wraps an already-built namespace list as a registry.
    pub fn from_vec(list: Vec<(String, CapabilityModule)>) -> (r: CapabilityRegistry)
        ensures
            r@ == registry_map(list@),
    {
        CapabilityRegistry { entries: list }
    }

    /// The capability module registered under `name`, if any.
    pub fn lookup_namespace(&self, name: &String) -> (r: Option<&CapabilityModule>)
        ensures
            match r {
                Some(m) => self@.contains_key(name@) && m@ == self@[name@],
                None => !self@.contains_key(name@),
            },
    {
        match find_last(&self.entries, name) {
            Some(i) => {
                proof {
                    lemma_registry_map_found(self.entries@, i as int, name@);
                }
                Some(&self.entries[i].1)
            },
            None => {
                proof {
                    lemma_registry_map_absent(self.entries@, name@);
                }
                None
            },
        }
    }

    /// Resolves a module's declared imports, in declared order, into the
    /// callables that become its positional instantiation arguments.
    ///
    /// Resolution is all-or-nothing: it succeeds exactly when every declared
    /// import is met, and otherwise fails naming the first unmet import in
    /// declared order — the namespace alone when the namespace is absent,
    /// the namespace and capability name when the namespace lacks the name.
    pub fn resolve(&self, imports: &Vec<ImportKey>) -> (r: Result<Vec<wasmtime::Func>, LinkError>)
        ensures
            match r {
                Ok(fs) => fs@.len() == imports@.len() && (forall|i: int|
                    0 <= i < imports@.len() ==> import_met(self@, #[trigger] imports@[i]))
                    && (forall|i: int|
                    0 <= i < imports@.len() ==> #[trigger] fs@[i] == import_value(
                        self@,
                        imports@[i],
                    )),
                Err(e) => exists|k: int|
                    0 <= k < imports@.len() && !import_met(self@, #[trigger] imports@[k]) && (
                    forall|j: int| 0 <= j < k ==> import_met(self@, #[trigger] imports@[j]))
                        && link_error_names(self@, imports@[k], e),
            },
    {
        let mut out: Vec<wasmtime::Func> = Vec::new();
        let mut idx: usize = 0;
        while idx < imports.len()
            invariant
                idx <= imports@.len(),
                out@.len() == idx,
                forall|i: int| 0 <= i < idx ==> import_met(self@, #[trigger] imports@[i]),
                forall|i: int|
                    0 <= i < idx ==> #[trigger] out@[i] == import_value(self@, imports@[i]),
            decreases imports@.len() - idx,
        {
            let key = &imports[idx];
            match self.lookup_namespace(&key.namespace) {
                None => {
                    return Err(LinkError::MissingNamespace(key.namespace.clone()));
                },
                Some(module) => {
                    match module.lookup(&key.name) {
                        None => {
                            return Err(
                                LinkError::MissingCapability(
                                    key.namespace.clone(),
                                    key.name.clone(),
                                ),
                            );
                        },
                        Some(f) => {
                            out.push(f);
                        },
                    }
                },
            }
            idx = idx + 1;
        }
        Ok(out)
    }
}

} // verus!
