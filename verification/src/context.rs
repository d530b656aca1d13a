//! The parts that a session is put together from, and the context that it runs in.

use crate::host::Host;
use std::path::PathBuf;
use vstd::prelude::*;

verus! {

/// Where imported modules are looked for.
pub enum ModuleLoader<H: Host> {
    /// Only the modules built into the engine.
    Builtin,
    /// The built-in modules first, then files found in a series of directories.
    BuiltinThenFiles(Vec<PathBuf>),
    /// A loader supplied from outside.
    Custom(H::ModuleLoader),
}

/// The input and output handles of a scope.
pub enum GlobalIo<H: Host> {
    /// The standard handles.
    Default,
    /// Handles supplied from outside.
    Custom(H::GlobalIo),
}

/// The limits put on execution.
pub enum RestrictConfig<H: Host> {
    /// No limits.
    Permissive,
    /// Limits supplied from outside.
    Custom(H::RestrictConfig),
}

/// What is known of a global scope before the engine makes any part of it.
pub struct ScopePlan<H: Host> {
    /// The name of the scope.
    pub name: &'static str,
    /// The loader for the module registry.
    pub loader: ModuleLoader<H>,
    /// The input and output handles.
    pub io: GlobalIo<H>,
}

/// The parts that a global scope is made from.
pub struct GlobalScope<H: Host> {
    /// The name of the scope, interned in `names`.
    pub name: H::Name,
    /// The name store.
    pub names: H::Names,
    /// The code map.
    pub codemap: H::CodeMap,
    /// The module registry.
    pub modules: H::Modules,
    /// The input and output handles.
    pub io: GlobalIo<H>,
}

/// A context that code runs in: handles that the engine gave out. The context must have been
/// made for the scope that stands beside it.
pub struct Context<H: Host> {
    /// The scope of the context.
    pub scope: H::Scope,
    /// The context itself, made for `scope`.
    pub handle: H::Context,
}

impl<H: Host> Context<H> {
    /// Returns a borrowed reference to the contained scope.
    pub fn scope(&self) -> (r: &H::Scope)
        ensures
            *r == self.scope,
    {
        &self.scope
    }
}

} // verus!
