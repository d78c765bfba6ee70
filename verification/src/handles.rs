use vstd::prelude::*;

use crate::errors::HostError;

verus! {

/// One compiled, instantiated sandboxed execution context. A unit is
/// allocated empty and initialized exactly once: before that its instance
/// is absent, afterwards it is present and the unit is only read.
pub struct Unit {
    /// The originating source name, kept for diagnostics.
    pub identity: String,
    /// The live instantiation, present once the unit is initialized.
    pub instance: Option<wasmtime::Instance>,
}

impl Unit {
    /// Whether the unit has a live instantiation.
    pub open spec fn is_initialized(&self) -> bool {
        self.instance is Some
    }
}

/// An arena of units addressed by small integer handles. Handles are
/// allocated densely in increasing order and never reused: the table is
/// append-only, so a handle is valid exactly when it is below the number of
/// allocations made so far.
pub struct HandleTable {
    units: Vec<Unit>,
}

impl View for HandleTable {
    type V = Seq<Unit>;

    closed spec fn view(&self) -> Seq<Unit> {
        self.units@
    }
}

impl HandleTable {
    pub fn new() -> (r: HandleTable)
        ensures
            r@ =~= Seq::<Unit>::empty(),
    {
        HandleTable { units: Vec::new() }
    }

    /// The handle the next allocation will return.
    pub fn next_handle(&self) -> (h: usize)
        ensures
            h == self@.len(),
    {
        self.units.len()
    }

    /// Appends a unit and returns its handle: the number of units allocated
    /// before it, so n allocations into an empty table yield exactly the
    /// handles 0 through n - 1, in allocation order.
    pub fn allocate(&mut self, unit: Unit) -> (h: usize)
        ensures
            h == old(self)@.len(),
            final(self)@ == old(self)@.push(unit),
    {
        let h = self.units.len();
        self.units.push(unit);
        h
    }

    /// The unit a handle addresses. Fails exactly on a handle no allocation
    /// has returned yet.
    pub fn get(&self, handle: usize) -> (r: Result<&Unit, HostError>)
        ensures
            match r {
                Ok(u) => handle < self@.len() && *u == self@[handle as int],
                Err(e) => handle >= self@.len() && (e matches HostError::InvalidHandle(h) && h
                    == handle),
            },
    {
        if handle < self.units.len() {
            Ok(&self.units[handle])
        } else {
            Err(HostError::InvalidHandle(handle))
        }
    }

    /// The unit a valid handle addresses.
    pub fn borrow_unit(&self, handle: usize) -> (r: &Unit)
        requires
            handle < self@.len(),
        ensures
            *r == self@[handle as int],
    {
        &self.units[handle]
    }

    /// Fills the slot a handle addresses; used by the two-phase
    /// construction to fill a slot that was allocated empty. An initialized
    /// unit is never replaced: after its one initialization a unit is only
    /// read.
    pub fn put(&mut self, handle: usize, unit: Unit)
        requires
            handle < old(self)@.len(),
            !old(self)@[handle as int].is_initialized(),
        ensures
            final(self)@ == old(self)@.update(handle as int, unit),
    {
        self.units.remove(handle);
        self.units.insert(handle, unit);
        proof {
            assert(self.units@ =~= old(self).units@.update(handle as int, unit));
        }
    }
}

/// Dense allocation, n-fold: a run of allocations that starts from an
/// empty table and appends one unit per step — which is all `allocate`
/// permits, and all a successful `construct` does — hands out exactly the
/// handles 0 through n - 1, in allocation order, and leaves the unit of
/// the i-th step in slot i.
pub proof fn lemma_dense_allocation(tables: Seq<Seq<Unit>>, handles: Seq<int>, units: Seq<Unit>)
    requires
        tables.len() == units.len() + 1,
        handles.len() == units.len(),
        tables[0].len() == 0,
        forall|i: int| 0 <= i < units.len() ==> #[trigger] tables[i + 1] == tables[i].push(units[i]),
        forall|i: int| 0 <= i < units.len() ==> #[trigger] handles[i] == tables[i].len(),
    ensures
        tables[units.len() as int].len() == units.len(),
        forall|i: int| 0 <= i < handles.len() ==> #[trigger] handles[i] == i,
        forall|i: int| 0 <= i < units.len() ==> #[trigger] tables[units.len() as int][i] == units[
            i
        ],
    decreases units.len(),
{
    if units.len() > 0 {
        let n = units.len() as int;
        let tables2 = tables.take(n);
        let handles2 = handles.take(n - 1);
        let units2 = units.take(n - 1);
        assert(forall|i: int| 0 <= i < n ==> tables2[i] == tables[i]);
        assert(forall|i: int| 0 <= i < n - 1 ==> handles2[i] == handles[i]);
        assert(forall|i: int| 0 <= i < n - 1 ==> units2[i] == units[i]);
        assert(forall|i: int|
            0 <= i < units2.len() ==> #[trigger] tables2[i + 1] == tables2[i].push(units2[i]))
            by {
            assert(forall|i: int|
                0 <= i < n - 1 ==> #[trigger] tables[i + 1] == tables[i].push(units[i]));
        }
        lemma_dense_allocation(tables2, handles2, units2);
        assert(tables[n - 1].len() == n - 1);
        assert(tables[n] == tables[n - 1].push(units[n - 1]));
        assert(handles[n - 1] == tables[n - 1].len());
        assert(forall|i: int|
            0 <= i < n - 1 ==> tables[n][i] == tables2[n - 1][i] && tables2[n - 1][i] == units2[i]);
    }
}

} // verus!
