//! Making a new interpreter: each step names one thing that the engine has to make, and takes
//! what was made to find the next step.
//!
//! A scope is made from a name store, the scope's name interned in that store, a code map and a
//! module registry, each of which the engine makes for this one scope.

use crate::context::{Context, GlobalIo, GlobalScope, ModuleLoader, RestrictConfig, ScopePlan};
use crate::host::Host;
use crate::interpreter::Interpreter;
use vstd::prelude::*;

verus! {

/// How far the making of an interpreter has come.
///
/// In every state but `Ready` the engine is to make one thing. `restrict` are the limits of the
/// context that is made last.
pub enum SetupState<H: Host> {
    /// A new name store is to be made.
    NewNames { plan: ScopePlan<H>, restrict: RestrictConfig<H> },
    /// The name of the scope is to be interned in its name store.
    AddScopeName { names: H::Names, plan: ScopePlan<H>, restrict: RestrictConfig<H> },
    /// A new code map is to be made.
    NewCodeMap {
        name: H::Name,
        names: H::Names,
        loader: ModuleLoader<H>,
        io: GlobalIo<H>,
        restrict: RestrictConfig<H>,
    },
    /// A new module registry is to be made from the loader.
    NewModules {
        name: H::Name,
        names: H::Names,
        codemap: H::CodeMap,
        loader: ModuleLoader<H>,
        io: GlobalIo<H>,
        restrict: RestrictConfig<H>,
    },
    /// A scope is to be made from its parts.
    NewScope { global: GlobalScope<H>, restrict: RestrictConfig<H> },
    /// A context is to be made for the scope.
    NewContext { scope: H::Scope, restrict: RestrictConfig<H> },
    /// There is an interpreter with this context.
    Ready(Context<H>),
}

/// What the engine has made.
pub enum Part<H: Host> {
    /// A name store.
    Names(H::Names),
    /// An interned name.
    Name(H::Name),
    /// A code map.
    CodeMap(H::CodeMap),
    /// A module registry.
    Modules(H::Modules),
    /// A scope.
    Scope(H::Scope),
    /// A context.
    Context(H::Context),
}

impl<H: Host> SetupState<H> {
    /// The state that a new part leads to, if it is what was to be made.
    pub open spec fn made(self, part: Part<H>) -> Option<Self> {
        match (self, part) {
            (SetupState::NewNames { plan, restrict }, Part::Names(names)) => Some(
                SetupState::AddScopeName { names, plan, restrict },
            ),
            (SetupState::AddScopeName { names, plan, restrict }, Part::Name(name)) => Some(
                SetupState::NewCodeMap {
                    name,
                    names,
                    loader: plan.loader,
                    io: plan.io,
                    restrict,
                },
            ),
            (
                SetupState::NewCodeMap { name, names, loader, io, restrict },
                Part::CodeMap(codemap),
            ) => Some(SetupState::NewModules { name, names, codemap, loader, io, restrict }),
            (
                SetupState::NewModules { name, names, codemap, loader: _, io, restrict },
                Part::Modules(modules),
            ) => Some(
                SetupState::NewScope {
                    global: GlobalScope { name, names, codemap, modules, io },
                    restrict,
                },
            ),
            (SetupState::NewScope { global: _, restrict }, Part::Scope(scope)) => Some(
                SetupState::NewContext { scope, restrict },
            ),
            (SetupState::NewContext { scope, restrict: _ }, Part::Context(handle)) => Some(
                SetupState::Ready(Context { scope, handle }),
            ),
            _ => None,
        }
    }

    /// The state that a series of new parts leads to, if each one is what was to be made.
    pub open spec fn made_all(self, parts: Seq<Part<H>>) -> Option<Self>
        decreases parts.len(),
    {
        if parts.len() == 0 {
            Some(self)
        } else {
            match self.made(parts[0]) {
                Some(next) => next.made_all(parts.drop_first()),
                None => None,
            }
        }
    }
}

/// The next thing that the engine has to make, or the interpreter.
pub enum Setup<H: Host> {
    /// Make a name store.
    NewNames(NewNames<H>),
    /// Intern the name of the scope.
    AddScopeName(AddScopeName<H>),
    /// Make a code map.
    NewCodeMap(NewCodeMap<H>),
    /// Make a module registry.
    NewModules(NewModules<H>),
    /// Make a scope.
    NewScope(NewScope<H>),
    /// Make a context.
    NewContext(NewContext<H>),
    /// Nothing: here is the interpreter.
    Ready(Interpreter<H>),
}

impl<H: Host> View for Setup<H> {
    type V = SetupState<H>;

    open spec fn view(&self) -> SetupState<H> {
        match *self {
            Setup::NewNames(step) => step.state(),
            Setup::AddScopeName(step) => step.state(),
            Setup::NewCodeMap(step) => step.state(),
            Setup::NewModules(step) => step.state(),
            Setup::NewScope(step) => step.state(),
            Setup::NewContext(step) => step.state(),
            Setup::Ready(interpreter) => SetupState::Ready(interpreter@),
        }
    }
}

/// Make a new, empty name store, and reply with it.
pub struct NewNames<H: Host> {
    /// What is known of the scope.
    pub plan: ScopePlan<H>,
    /// The limits of the context.
    pub restrict: RestrictConfig<H>,
}

impl<H: Host> NewNames<H> {
    /// The state of the making at this step.
    pub open spec fn state(self) -> SetupState<H> {
        SetupState::NewNames { plan: self.plan, restrict: self.restrict }
    }

    /// Goes on to the name of the scope.
    pub fn resume(self, names: H::Names) -> (r: Setup<H>)
        ensures
            self.state().made(Part::Names(names)) == Some(r@),
    {
        Setup::AddScopeName(AddScopeName { names, plan: self.plan, restrict: self.restrict })
    }
}

/// Intern the name that stands in `plan` in the name store `names`, and reply with the interned
/// name.
pub struct AddScopeName<H: Host> {
    /// The name store.
    pub names: H::Names,
    /// What is known of the scope.
    pub plan: ScopePlan<H>,
    /// The limits of the context.
    pub restrict: RestrictConfig<H>,
}

impl<H: Host> AddScopeName<H> {
    /// The state of the making at this step.
    pub open spec fn state(self) -> SetupState<H> {
        SetupState::AddScopeName { names: self.names, plan: self.plan, restrict: self.restrict }
    }

    /// Goes on to the code map.
    pub fn resume(self, name: H::Name) -> (r: Setup<H>)
        ensures
            self.state().made(Part::Name(name)) == Some(r@),
    {
        Setup::NewCodeMap(
            NewCodeMap {
                name,
                names: self.names,
                loader: self.plan.loader,
                io: self.plan.io,
                restrict: self.restrict,
            },
        )
    }
}

/// Make a new, empty code map, and reply with it.
pub struct NewCodeMap<H: Host> {
    /// The name of the scope.
    pub name: H::Name,
    /// The name store.
    pub names: H::Names,
    /// The loader for the module registry.
    pub loader: ModuleLoader<H>,
    /// The input and output handles.
    pub io: GlobalIo<H>,
    /// The limits of the context.
    pub restrict: RestrictConfig<H>,
}

impl<H: Host> NewCodeMap<H> {
    /// The state of the making at this step.
    pub open spec fn state(self) -> SetupState<H> {
        SetupState::NewCodeMap {
            name: self.name,
            names: self.names,
            loader: self.loader,
            io: self.io,
            restrict: self.restrict,
        }
    }

    /// Goes on to the module registry.
    pub fn resume(self, codemap: H::CodeMap) -> (r: Setup<H>)
        ensures
            self.state().made(Part::CodeMap(codemap)) == Some(r@),
    {
        Setup::NewModules(
            NewModules {
                loader: self.loader,
                next: ModulesMade {
                    name: self.name,
                    names: self.names,
                    codemap,
                    io: self.io,
                    restrict: self.restrict,
                },
            },
        )
    }
}

/// What follows the making of a module registry.
pub struct ModulesMade<H: Host> {
    /// The name of the scope.
    pub name: H::Name,
    /// The name store.
    pub names: H::Names,
    /// The code map.
    pub codemap: H::CodeMap,
    /// The input and output handles.
    pub io: GlobalIo<H>,
    /// The limits of the context.
    pub restrict: RestrictConfig<H>,
}

impl<H: Host> ModulesMade<H> {
    /// Goes on to making the scope from its parts.
    pub fn resume(self, modules: H::Modules) -> (r: Setup<H>)
        ensures
            r@ == (SetupState::NewScope {
                global: GlobalScope {
                    name: self.name,
                    names: self.names,
                    codemap: self.codemap,
                    modules,
                    io: self.io,
                },
                restrict: self.restrict,
            }),
    {
        Setup::NewScope(
            NewScope {
                global: GlobalScope {
                    name: self.name,
                    names: self.names,
                    codemap: self.codemap,
                    modules,
                    io: self.io,
                },
                next: ScopeMade { restrict: self.restrict },
            },
        )
    }
}

/// Make a new module registry from `loader`, and reply to `next` with it.
pub struct NewModules<H: Host> {
    /// The loader.
    pub loader: ModuleLoader<H>,
    /// What follows.
    pub next: ModulesMade<H>,
}

impl<H: Host> NewModules<H> {
    /// The state of the making at this step.
    pub open spec fn state(self) -> SetupState<H> {
        SetupState::NewModules {
            name: self.next.name,
            names: self.next.names,
            codemap: self.next.codemap,
            loader: self.loader,
            io: self.next.io,
            restrict: self.next.restrict,
        }
    }
}

/// What follows the making of a scope.
pub struct ScopeMade<H: Host> {
    /// The limits of the context.
    pub restrict: RestrictConfig<H>,
}

impl<H: Host> ScopeMade<H> {
    /// Goes on to making the context.
    pub fn resume(self, scope: H::Scope) -> (r: Setup<H>)
        ensures
            r@ == (SetupState::NewContext { scope, restrict: self.restrict }),
    {
        new_context(scope, self.restrict)
    }
}

/// Make a scope from the parts in `global`, and reply to `next` with it.
pub struct NewScope<H: Host> {
    /// The parts of the scope.
    pub global: GlobalScope<H>,
    /// What follows.
    pub next: ScopeMade<H>,
}

impl<H: Host> NewScope<H> {
    /// The state of the making at this step.
    pub open spec fn state(self) -> SetupState<H> {
        SetupState::NewScope { global: self.global, restrict: self.next.restrict }
    }
}

/// What follows the making of a context.
pub struct ContextMade<H: Host> {
    /// The scope of the context.
    pub scope: H::Scope,
}

impl<H: Host> ContextMade<H> {
    /// Ends with the interpreter.
    pub fn resume(self, handle: H::Context) -> (r: Setup<H>)
        ensures
            r@ == SetupState::<H>::Ready((Context { scope: self.scope, handle })),
    {
        Setup::Ready(Interpreter::with_context(Context { scope: self.scope, handle }))
    }
}

/// Make a context for the scope that `next` holds, with the limits `restrict`, and reply to
/// `next` with it.
pub struct NewContext<H: Host> {
    /// The limits of the context.
    pub restrict: RestrictConfig<H>,
    /// What follows.
    pub next: ContextMade<H>,
}

impl<H: Host> NewContext<H> {
    /// The state of the making at this step.
    pub open spec fn state(self) -> SetupState<H> {
        SetupState::NewContext { scope: self.next.scope, restrict: self.restrict }
    }
}

/// Starts on a new scope and its context.
pub(crate) fn new_scope<H: Host>(plan: ScopePlan<H>, restrict: RestrictConfig<H>) -> (r: Setup<H>)
    ensures
        r@ == (SetupState::NewNames { plan, restrict }),
{
    Setup::NewNames(NewNames { plan, restrict })
}

/// Starts on a new context for a scope.
pub(crate) fn new_context<H: Host>(scope: H::Scope, restrict: RestrictConfig<H>) -> (r: Setup<H>)
    ensures
        r@ == (SetupState::NewContext { scope, restrict }),
{
    Setup::NewContext(NewContext { restrict, next: ContextMade { scope } })
}

} // verus!
