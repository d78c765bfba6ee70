use vstd::prelude::*;

use crate::externals::ExportEntry;

verus! {

/// The mapping that a table of named entries denotes. Later entries win, so
/// a table built by appending behaves as a map under "last write wins".
pub open spec fn module_map(s: Seq<(String, wasmtime::Func)>) -> Map<Seq<char>, wasmtime::Func>
    decreases s.len(),
{
    if s.len() == 0 {
        Map::<Seq<char>, wasmtime::Func>::empty()
    } else {
        module_map(s.drop_last()).insert(s.last().0@, s.last().1)
    }
}

/// The index of the last entry carrying this name, if any: the entry that
/// wins under "last write wins".
pub(crate) fn find_last<T>(entries: &Vec<(String, T)>, name: &String) -> (r: Option<usize>)
    ensures
        match r {
            Some(i) => 0 <= i < entries@.len() && entries@[i as int].0@ == name@
                && (forall|j: int| i < j < entries@.len() ==> entries@[j].0@ != name@),
            None => forall|j: int| 0 <= j < entries@.len() ==> entries@[j].0@ != name@,
        },
{
    let mut i: usize = entries.len();
    while i > 0
        invariant
            i <= entries@.len(),
            forall|j: int| i <= j < entries@.len() ==> entries@[j].0@ != name@,
        decreases i,
    {
        i = i - 1;
        if entries[i].0 == *name {
            return Some(i);
        }
    }
    None
}

/// A winning entry is the one the denoted map holds for its name.
pub proof fn lemma_module_map_found(s: Seq<(String, wasmtime::Func)>, i: int, name: Seq<char>)
    requires
        0 <= i < s.len(),
        s[i].0@ == name,
        forall|j: int| i < j < s.len() ==> s[j].0@ != name,
    ensures
        module_map(s).contains_key(name),
        module_map(s)[name] == s[i].1,
    decreases s.len(),
{
    if i == s.len() - 1 {
    } else {
        assert(s.drop_last()[i] == s[i]);
        assert(forall|j: int| i < j < s.drop_last().len() ==> s.drop_last()[j] == s[j]);
        lemma_module_map_found(s.drop_last(), i, name);
    }
}

/// A name carried by no entry is absent from the denoted map.
pub proof fn lemma_module_map_absent(s: Seq<(String, wasmtime::Func)>, name: Seq<char>)
    requires
        forall|j: int| 0 <= j < s.len() ==> s[j].0@ != name,
    ensures
        !module_map(s).contains_key(name),
    decreases s.len(),
{
    if s.len() > 0 {
        assert(forall|j: int| 0 <= j < s.drop_last().len() ==> s.drop_last()[j] == s[j]);
        lemma_module_map_absent(s.drop_last(), name);
    }
}

/// An order-irrelevant mapping from capability name to callable. Adding an
/// entry under an existing name replaces it: last write wins.
pub struct CapabilityModule {
    entries: Vec<(String, wasmtime::Func)>,
}

impl View for CapabilityModule {
    type V = Map<Seq<char>, wasmtime::Func>;

    closed spec fn view(&self) -> Map<Seq<char>, wasmtime::Func> {
        module_map(self.entries@)
    }
}

impl CapabilityModule {
    /// The names of the entries, in the order they were added.
    pub closed spec fn entry_names(&self) -> Seq<Seq<char>> {
        self.entries@.map_values(|p: (String, wasmtime::Func)| p.0@)
    }

    pub fn new() -> (r: CapabilityModule)
        ensures
            r@ == Map::<Seq<char>, wasmtime::Func>::empty(),
            r.entry_names() =~= Seq::<Seq<char>>::empty(),
    {
        CapabilityModule { entries: Vec::new() }
    }

    /// Binds `name` to `f`, replacing any earlier binding of the same name.
    pub fn add_func(&mut self, name: String, f: wasmtime::Func)
        ensures
            final(self)@ == old(self)@.insert(name@, f),
            final(self).entry_names() =~= old(self).entry_names().push(name@),
    {
        self.entries.push((name, f));
        proof {
            assert(self.entries@.drop_last() =~= old(self).entries@);
        }
    }

    /// Wraps an already-built entry list as a module.
    pub fn from_vec(list: Vec<(String, wasmtime::Func)>) -> (r: CapabilityModule)
        ensures
            r@ == module_map(list@),
    {
        CapabilityModule { entries: list }
    }

    /// The callable bound to `name`, if the module has one.
    pub fn lookup(&self, name: &String) -> (r: Option<wasmtime::Func>)
        ensures
            match r {
                Some(f) => self@.contains_key(name@) && f == self@[name@],
                None => !self@.contains_key(name@),
            },
    {
        match find_last(&self.entries, name) {
            Some(i) => {
                proof {
                    lemma_module_map_found(self.entries@, i as int, name@);
                }
                Some(self.entries[i].1)
            },
            None => {
                proof {
                    lemma_module_map_absent(self.entries@, name@);
                }
                None
            },
        }
    }

    /// Whether the module has a capability of this name.
    pub fn contains(&self, name: &String) -> (r: bool)
        ensures
            r == self@.contains_key(name@),
    {
        self.lookup(name).is_some()
    }

    /// The entry names, in the order they were added.
    pub fn names(&self) -> (r: Vec<String>)
        ensures
            r@.len() == self.entry_names().len(),
            forall|i: int| 0 <= i < r@.len() ==> r@[i]@ == self.entry_names()[i],
    {
        let mut out: Vec<String> = Vec::new();
        let mut i: usize = 0;
        while i < self.entries.len()
            invariant
                i <= self.entries@.len(),
                out@.len() == i,
                forall|j: int| 0 <= j < i ==> out@[j]@ == self.entry_names()[j],
            decreases self.entries@.len() - i,
        {
            out.push(self.entries[i].0.clone());
            i = i + 1;
        }
        out
    }
}

/// The capability mapping that a list of instance exports denotes: exactly
/// the function-shaped exports, later entries winning.
pub open spec fn exports_map(s: Seq<ExportEntry>) -> Map<Seq<char>, wasmtime::Func>
    decreases s.len(),
{
    if s.len() == 0 {
        Map::<Seq<char>, wasmtime::Func>::empty()
    } else {
        match s.last().func {
            Some(f) => exports_map(s.drop_last()).insert(s.last().name@, f),
            None => exports_map(s.drop_last()),
        }
    }
}

/// Builds the capability module a list of instance exports denotes: every
/// function-shaped export under its own name, and nothing else.
pub fn capability_module_of_exports(entries: &Vec<ExportEntry>) -> (r: CapabilityModule)
    ensures
        r@ == exports_map(entries@),
{
    let mut out = CapabilityModule::new();
    let mut i: usize = 0;
    while i < entries.len()
        invariant
            i <= entries@.len(),
            out@ == exports_map(entries@.take(i as int)),
        decreases entries@.len() - i,
    {
        let entry = &entries[i];
        match &entry.func {
            Some(f) => {
                out.add_func(entry.name.clone(), *f);
            },
            None => {},
        }
        i = i + 1;
        proof {
            assert(entries@.take(i as int).drop_last() =~= entries@.take(i - 1));
            assert(entries@.take(i as int).last() == entries@[i - 1]);
        }
    }
    proof {
        assert(entries@.take(entries@.len() as int) =~= entries@);
    }
    out
}

/// When every entry of one name carries the same callable — as a listing
/// of distinct wasm exports does — the denoted mapping binds the name to
/// that callable.
pub proof fn lemma_exports_map_value(s: Seq<ExportEntry>, name: Seq<char>, f: wasmtime::Func)
    requires
        forall|j: int| 0 <= j < s.len() && s[j].name@ == name ==> s[j].func == Some(f),
        exists|j: int| 0 <= j < s.len() && s[j].name@ == name,
    ensures
        exports_map(s).contains_key(name),
        exports_map(s)[name] == f,
    decreases s.len(),
{
    if s.last().name@ == name {
        assert(s[s.len() - 1].func == Some(f));
    } else {
        let j = choose|j: int| 0 <= j < s.len() && s[j].name@ == name;
        assert(j < s.len() - 1);
        assert(s.drop_last()[j] == s[j]);
        assert(forall|j2: int|
            0 <= j2 < s.drop_last().len() && s.drop_last()[j2].name@ == name
                ==> s.drop_last()[j2].func == Some(f)) by {
            assert(forall|j2: int|
                0 <= j2 < s.drop_last().len() ==> s.drop_last()[j2] == s[j2]);
        }
        lemma_exports_map_value(s.drop_last(), name, f);
    }
}

/// A converted export table holds a name exactly when some export of that
/// name is function-shaped: memories, globals and tables are skipped.
pub proof fn lemma_exports_exactly_functions(s: Seq<ExportEntry>, name: Seq<char>)
    ensures
        exports_map(s).contains_key(name) <==> (exists|i: int|
            0 <= i < s.len() && s[i].name@ == name && s[i].func is Some),
    decreases s.len(),
{
    if s.len() > 0 {
        lemma_exports_exactly_functions(s.drop_last(), name);
        if exists|i: int| 0 <= i < s.drop_last().len() && s.drop_last()[i].name@ == name
            && s.drop_last()[i].func is Some {
            let i = choose|i: int| 0 <= i < s.drop_last().len() && s.drop_last()[i].name@ == name
                && s.drop_last()[i].func is Some;
            assert(s[i].name@ == name && s[i].func is Some);
        }
        if s.last().name@ == name && s.last().func is Some {
            assert(s[s.len() - 1].name@ == name && s[s.len() - 1].func is Some);
        }
        if exists|i: int| 0 <= i < s.len() && s[i].name@ == name && s[i].func is Some {
            let i = choose|i: int| 0 <= i < s.len() && s[i].name@ == name && s[i].func is Some;
            if i < s.len() - 1 {
                assert(s.drop_last()[i].name@ == name && s.drop_last()[i].func is Some);
            }
        }
    }
}

} // verus!
