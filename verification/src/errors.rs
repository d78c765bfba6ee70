use vstd::prelude::*;

verus! {

/// A failure while resolving a module's declared imports against a
/// capability registry: either the whole namespace is absent, or the
/// namespace exists but lacks the named capability.
#[derive(Debug, Clone, PartialEq, Eq)]
pub enum LinkError {
    MissingNamespace(String),
    MissingCapability(String, String),
}

/// Every failure this subsystem reports to its caller. Failures are returned
/// to the immediate caller and never retried or swallowed; only the
/// top-level driver turns them into diagnostics or process exit.
#[derive(Debug, Clone, PartialEq, Eq)]
pub enum HostError {
    /// The module source was malformed and could not be compiled.
    CompileError(String),
    /// An import declared by the module was not satisfied by the registry.
    LinkError(LinkError),
    /// Instantiation itself failed, e.g. the module's start routine faulted.
    InstantiationError(String),
    /// The named export is absent, or the unit has no live instantiation yet.
    /// Carries the export name and the unit's identity for diagnostics.
    ExportNotFound(String, String),
    /// A requested byte range lies beyond the current size of a unit's memory.
    OutOfBounds,
    /// The unit exposes no addressable memory export.
    NoMemoryExport,
    /// The handle does not index a populated slot of the handle table.
    InvalidHandle(usize),
    /// The guest invoked the process-termination capability with this exit
    /// code; the whole guest call has been unwound and the driver is expected
    /// to stop, never to resume the unit.
    GuestExit(i32),
    /// A guest call trapped for a reason other than a termination request.
    Trap(String),
}

} // verus!
