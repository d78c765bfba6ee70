//! A small hosting layer for sandboxed, statically typed executable modules.
//!
//! The crate wires compiled modules to named capabilities: a two-level
//! registry maps `(namespace, name)` pairs to callables, a module's declared
//! imports are resolved against it positionally, live units expose their
//! exports as callables and their addressable memory through bounds-checked
//! copies, and a handle table lets a driver create and drive a dynamic number
//! of sub-units addressed by small integer handles.

pub mod capability;
pub mod errors;
pub mod externals;
pub mod handles;
pub mod host;
pub mod marshal;
pub mod registry;
