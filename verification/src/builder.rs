//! Builds an interpreter from parts.

use crate::context::{Context, GlobalIo, ModuleLoader, RestrictConfig, ScopePlan};
use crate::host::Host;
use crate::interpreter::Interpreter;
use crate::setup::{new_context, new_scope, Setup, SetupState};
use crate::text::joined;
use std::path::PathBuf;
use vstd::prelude::*;
use vstd::string::StringExecFns;

verus! {

/// A parameter of a [`Builder`].
#[derive(Clone, Copy, Debug, PartialEq, Eq, Structural)]
pub enum Setting {
    /// Set with `Builder::name`.
    Name,
    /// Set with `Builder::context`.
    Context,
    /// Set with `Builder::scope`.
    Scope,
    /// Set with `Builder::restrict`.
    Restrict,
    /// Set with `Builder::io`.
    Io,
    /// Set with `Builder::module_loader`.
    ModuleLoader,
    /// Set with `Builder::search_paths`.
    SearchPaths,
}

impl Setting {
    /// The name of the method that sets the parameter.
    pub open spec fn method_name(self) -> Seq<char> {
        match self {
            Setting::Name => "name"@,
            Setting::Context => "context"@,
            Setting::Scope => "scope"@,
            Setting::Restrict => "restrict"@,
            Setting::Io => "io"@,
            Setting::ModuleLoader => "module_loader"@,
            Setting::SearchPaths => "search_paths"@,
        }
    }

    /// The parameters that must not have been set before this one, in the order in which a
    /// conflict is reported.
    ///
    /// Where the order of two calls matters, only one of the two parameters lists the other: a
    /// scope may be set after a restriction, and not before it.
    pub open spec fn excluded(self) -> Seq<Setting> {
        match self {
            Setting::Name => seq![Setting::Context, Setting::Scope],
            Setting::Context => seq![
                Setting::Name,
                Setting::Scope,
                Setting::Restrict,
                Setting::ModuleLoader,
                Setting::SearchPaths,
            ],
            Setting::Scope => seq![
                Setting::Name,
                Setting::Context,
                Setting::ModuleLoader,
                Setting::SearchPaths,
            ],
            Setting::Restrict => seq![
                Setting::Context,
                Setting::Scope,
                Setting::ModuleLoader,
                Setting::SearchPaths,
            ],
            Setting::Io => seq![Setting::Context, Setting::Scope],
            Setting::ModuleLoader => seq![
                Setting::Context,
                Setting::Scope,
                Setting::SearchPaths,
            ],
            Setting::SearchPaths => seq![
                Setting::Context,
                Setting::Scope,
                Setting::ModuleLoader,
            ],
        }
    }

    fn method_text(self) -> (r: &'static str)
        ensures
            r@ == self.method_name(),
    {
        match self {
            Setting::Name => "name",
            Setting::Context => "context",
            Setting::Scope => "scope",
            Setting::Restrict => "restrict",
            Setting::Io => "io",
            Setting::ModuleLoader => "module_loader",
            Setting::SearchPaths => "search_paths",
        }
    }

    fn exclusions(self) -> (r: Vec<Setting>)
        ensures
            r@ == self.excluded(),
    {
        let r = match self {
            Setting::Name => vec![Setting::Context, Setting::Scope],
            Setting::Context => vec![
                Setting::Name,
                Setting::Scope,
                Setting::Restrict,
                Setting::ModuleLoader,
                Setting::SearchPaths,
            ],
            Setting::Scope => vec![
                Setting::Name,
                Setting::Context,
                Setting::ModuleLoader,
                Setting::SearchPaths,
            ],
            Setting::Restrict => vec![
                Setting::Context,
                Setting::Scope,
                Setting::ModuleLoader,
                Setting::SearchPaths,
            ],
            Setting::Io => vec![Setting::Context, Setting::Scope],
            Setting::ModuleLoader => vec![
                Setting::Context,
                Setting::Scope,
                Setting::SearchPaths,
            ],
            Setting::SearchPaths => vec![
                Setting::Context,
                Setting::Scope,
                Setting::ModuleLoader,
            ],
        };
        assert(r@ =~= self.excluded());
        r
    }

    /// The complaint that two parameters were both set.
    pub fn conflict_message(self, that: Setting) -> (r: String)
        ensures
            r@ == "`Builder::"@ + self.method_name() + "` and `Builder::"@ + that.method_name()
                + "` are mutually exclusive"@,
    {
        let mut text = joined("`Builder::", self.method_text());
        text.append("` and `Builder::");
        text.append(that.method_text());
        text.append("` are mutually exclusive");
        text
    }
}

/// What has been set on a [`Builder`].
pub struct Settings<H: Host> {
    /// The name of the new scope.
    pub name: Option<&'static str>,
    /// The context of the new interpreter.
    pub context: Option<Context<H>>,
    /// The scope in the new context.
    pub scope: Option<H::Scope>,
    /// The restriction configuration in the new context.
    pub restrict: Option<RestrictConfig<H>>,
    /// The I/O handles in the new scope.
    pub io: Option<GlobalIo<H>>,
    /// The module loader in the new scope.
    pub module_loader: Option<ModuleLoader<H>>,
    /// The search paths for a new loader of module files.
    pub search_paths: Option<Vec<PathBuf>>,
}

impl<H: Host> Settings<H> {
    /// Nothing has been set.
    pub open spec fn none() -> Self {
        Settings {
            name: None,
            context: None,
            scope: None,
            restrict: None,
            io: None,
            module_loader: None,
            search_paths: None,
        }
    }

    /// Whether a parameter has been set.
    pub open spec fn has(self, setting: Setting) -> bool {
        match setting {
            Setting::Name => self.name is Some,
            Setting::Context => self.context is Some,
            Setting::Scope => self.scope is Some,
            Setting::Restrict => self.restrict is Some,
            Setting::Io => self.io is Some,
            Setting::ModuleLoader => self.module_loader is Some,
            Setting::SearchPaths => self.search_paths is Some,
        }
    }

    /// Whether a parameter may be set: none of those that it excludes has been.
    pub open spec fn accepts(self, setting: Setting) -> bool {
        forall|i: int|
            0 <= i < setting.excluded().len() ==> !self.has(#[trigger] setting.excluded()[i])
    }

    /// No two parameters that exclude each other have both been set.
    pub open spec fn compatible(self) -> bool {
        forall|a: Setting, b: Setting|
            #[trigger] self.has(a) && #[trigger] self.has(b) ==> !(a.excluded().contains(b)
                && b.excluded().contains(a))
    }

    /// The loader of the new scope.
    pub open spec fn loader(self) -> ModuleLoader<H> {
        if self.module_loader is Some {
            self.module_loader->0
        } else if self.search_paths is Some {
            ModuleLoader::BuiltinThenFiles(self.search_paths->0)
        } else {
            ModuleLoader::Builtin
        }
    }

    /// What a new scope is to be like.
    pub open spec fn scope_plan(self) -> ScopePlan<H> {
        ScopePlan {
            name: if self.name is Some {
                self.name->0
            } else {
                "main"
            },
            loader: self.loader(),
            io: if self.io is Some {
                self.io->0
            } else {
                GlobalIo::Default
            },
        }
    }

    /// The limits of a new context.
    pub open spec fn limits(self) -> RestrictConfig<H> {
        if self.restrict is Some {
            self.restrict->0
        } else {
            RestrictConfig::Permissive
        }
    }

    /// How the making of the interpreter starts: with the context if there is one, else with
    /// the scope if there is one, else from nothing.
    pub open spec fn setup(self) -> SetupState<H> {
        if self.context is Some {
            SetupState::Ready(self.context->0)
        } else if self.scope is Some {
            SetupState::NewContext { scope: self.scope->0, restrict: self.limits() }
        } else {
            SetupState::NewNames { plan: self.scope_plan(), restrict: self.limits() }
        }
    }
}

/// Builds an `Interpreter` with configured parameters.
///
/// Some methods are mutually exclusive. For example, a `Scope` contains a `ModuleLoader`.
/// Therefore, a `Scope` and a `ModuleLoader` cannot both be supplied. [`Builder::conflict`]
/// finds such a conflict before the call that would cause it.
pub struct Builder<H: Host> {
    name: Option<&'static str>,
    context: Option<Context<H>>,
    scope: Option<H::Scope>,
    restrict: Option<RestrictConfig<H>>,
    io: Option<GlobalIo<H>>,
    module_loader: Option<ModuleLoader<H>>,
    search_paths: Option<Vec<PathBuf>>,
}

impl<H: Host> View for Builder<H> {
    type V = Settings<H>;

    /// What has been set.
    closed spec fn view(&self) -> Settings<H> {
        Settings {
            name: self.name,
            context: self.context,
            scope: self.scope,
            restrict: self.restrict,
            io: self.io,
            module_loader: self.module_loader,
            search_paths: self.search_paths,
        }
    }
}

impl<H: Host> Builder<H> {
    #[verifier::type_invariant]
    spec fn inv(self) -> bool {
        self@.compatible()
    }

    /// Creates a new `Builder`.
    pub fn new() -> (r: Self)
        ensures
            r@ == Settings::<H>::none(),
            r@.compatible(),
    {
        Builder {
            name: None,
            context: None,
            scope: None,
            restrict: None,
            io: None,
            module_loader: None,
            search_paths: None,
        }
    }

    fn is_set(&self, setting: Setting) -> (r: bool)
        ensures
            r == self@.has(setting),
    {
        match setting {
            Setting::Name => self.name.is_some(),
            Setting::Context => self.context.is_some(),
            Setting::Scope => self.scope.is_some(),
            Setting::Restrict => self.restrict.is_some(),
            Setting::Io => self.io.is_some(),
            Setting::ModuleLoader => self.module_loader.is_some(),
            Setting::SearchPaths => self.search_paths.is_some(),
        }
    }

    /// Finds what stands in the way of setting a parameter: the first of the parameters that it
    /// excludes that has been set.
    ///
    /// No two parameters that exclude each other have been set on any builder.
    pub fn conflict(&self, setting: Setting) -> (r: Option<Setting>)
        ensures
            self@.compatible(),
            r is None <==> self@.accepts(setting),
            r matches Some(that) ==> exists|i: int|
                0 <= i < setting.excluded().len() && #[trigger] setting.excluded()[i] == that
                    && self@.has(that) && forall|j: int|
                    0 <= j < i ==> !self@.has(#[trigger] setting.excluded()[j]),
    {
        proof {
            use_type_invariant(self);
        }
        let list = setting.exclusions();
        let mut i: usize = 0;
        while i < list.len()
            invariant
                i <= list.len(),
                self@.compatible(),
                list@ == setting.excluded(),
                forall|j: int| 0 <= j < i ==> !self@.has(#[trigger] setting.excluded()[j]),
            decreases list.len() - i,
        {
            if self.is_set(list[i]) {
                assert(setting.excluded()[i as int] == list@[i as int]);
                return Some(list[i]);
            }
            i += 1;
        }
        None
    }

    /// Sets the name of the new scope.
    pub fn name(self, name: &'static str) -> (r: Self)
        requires
            self@.accepts(Setting::Name),
        ensures
            r@ == (Settings { name: Some(name), ..self@ }),
            r@.compatible(),
    {
        proof {
            use_type_invariant(&self);
            lemma_set_keeps_compatible(
                self@,
                Settings { name: Some(name), ..self@ },
                Setting::Name,
            );
        }
        Builder { name: Some(name), ..self }
    }

    /// Sets the context of the new interpreter.
    pub fn context(self, ctx: Context<H>) -> (r: Self)
        requires
            self@.accepts(Setting::Context),
        ensures
            r@ == (Settings { context: Some(ctx), ..self@ }),
            r@.compatible(),
    {
        proof {
            use_type_invariant(&self);
            lemma_set_keeps_compatible(
                self@,
                Settings { context: Some(ctx), ..self@ },
                Setting::Context,
            );
        }
        Builder { context: Some(ctx), ..self }
    }

    /// Sets the scope in the new context.
    pub fn scope(self, scope: H::Scope) -> (r: Self)
        requires
            self@.accepts(Setting::Scope),
        ensures
            r@ == (Settings { scope: Some(scope), ..self@ }),
            r@.compatible(),
    {
        proof {
            use_type_invariant(&self);
            lemma_set_keeps_compatible(
                self@,
                Settings { scope: Some(scope), ..self@ },
                Setting::Scope,
            );
        }
        Builder { scope: Some(scope), ..self }
    }

    /// Sets the restriction configuration in the new context.
    pub fn restrict(self, restrict: RestrictConfig<H>) -> (r: Self)
        requires
            self@.accepts(Setting::Restrict),
        ensures
            r@ == (Settings { restrict: Some(restrict), ..self@ }),
            r@.compatible(),
    {
        proof {
            use_type_invariant(&self);
            lemma_set_keeps_compatible(
                self@,
                Settings { restrict: Some(restrict), ..self@ },
                Setting::Restrict,
            );
        }
        Builder { restrict: Some(restrict), ..self }
    }

    /// Sets the I/O handles in the new scope.
    pub fn io(self, io: GlobalIo<H>) -> (r: Self)
        requires
            self@.accepts(Setting::Io),
        ensures
            r@ == (Settings { io: Some(io), ..self@ }),
            r@.compatible(),
    {
        proof {
            use_type_invariant(&self);
            lemma_set_keeps_compatible(self@, Settings { io: Some(io), ..self@ }, Setting::Io);
        }
        Builder { io: Some(io), ..self }
    }

    /// Sets the module loader in the new scope.
    pub fn module_loader(self, loader: ModuleLoader<H>) -> (r: Self)
        requires
            self@.accepts(Setting::ModuleLoader),
        ensures
            r@ == (Settings { module_loader: Some(loader), ..self@ }),
            r@.compatible(),
    {
        proof {
            use_type_invariant(&self);
            lemma_set_keeps_compatible(
                self@,
                Settings { module_loader: Some(loader), ..self@ },
                Setting::ModuleLoader,
            );
        }
        Builder { module_loader: Some(loader), ..self }
    }

    /// Sets the search paths for a new loader of module files.
    pub fn search_paths(self, paths: Vec<PathBuf>) -> (r: Self)
        requires
            self@.accepts(Setting::SearchPaths),
        ensures
            r@ == (Settings { search_paths: Some(paths), ..self@ }),
            r@.compatible(),
    {
        proof {
            use_type_invariant(&self);
            lemma_set_keeps_compatible(
                self@,
                Settings { search_paths: Some(paths), ..self@ },
                Setting::SearchPaths,
            );
        }
        Builder { search_paths: Some(paths), ..self }
    }

    /// Consumes the `Builder` and starts on making an `Interpreter`.
    pub fn finish(self) -> (r: Setup<H>)
        ensures
            r@ == self@.setup(),
    {
        self.build_context()
    }

    fn build_context(self) -> (r: Setup<H>)
        ensures
            r@ == self@.setup(),
    {
        let Builder { name, context, scope, restrict, io, module_loader, search_paths } = self;
        let restrict = match restrict {
            Some(restrict) => restrict,
            None => RestrictConfig::Permissive,
        };
        match (context, scope) {
            (Some(ctx), _) => Setup::Ready(Interpreter::with_context(ctx)),
            (None, Some(scope)) => new_context(scope, restrict),
            (None, None) => new_scope(
                build_scope(name, io, module_loader, search_paths),
                restrict,
            ),
        }
    }
}

/// Setting a parameter that is accepted leaves no two parameters set that exclude each other.
proof fn lemma_set_keeps_compatible<H: Host>(
    before: Settings<H>,
    after: Settings<H>,
    setting: Setting,
)
    requires
        before.compatible(),
        before.accepts(setting),
        after.has(setting),
        forall|s: Setting| s != setting ==> (#[trigger] after.has(s) == before.has(s)),
    ensures
        after.compatible(),
{
    assert forall|a: Setting, b: Setting| #[trigger]
        after.has(a) && #[trigger] after.has(b) implies !(a.excluded().contains(b)
        && b.excluded().contains(a)) by {
        if setting.excluded().contains(b) && a == setting {
            let i = choose|i: int|
                0 <= i < setting.excluded().len() && setting.excluded()[i] == b;
            assert(!before.has(setting.excluded()[i]));
            assert(b == setting);
            assert(!setting.excluded().contains(setting));
        } else if setting.excluded().contains(a) && b == setting {
            let i = choose|i: int|
                0 <= i < setting.excluded().len() && setting.excluded()[i] == a;
            assert(!before.has(setting.excluded()[i]));
        } else if a != setting && b != setting {
            assert(before.has(a) && before.has(b));
        }
    }
}

fn build_scope<H: Host>(
    name: Option<&'static str>,
    io: Option<GlobalIo<H>>,
    module_loader: Option<ModuleLoader<H>>,
    search_paths: Option<Vec<PathBuf>>,
) -> (r: ScopePlan<H>)
    ensures
        r == (Settings {
            name,
            io,
            module_loader,
            search_paths,
            ..Settings::none()
        }).scope_plan(),
{
    ScopePlan {
        name: match name {
            Some(name) => name,
            None => "main",
        },
        loader: build_loader(module_loader, search_paths),
        io: match io {
            Some(io) => io,
            None => GlobalIo::Default,
        },
    }
}

fn build_loader<H: Host>(
    module_loader: Option<ModuleLoader<H>>,
    search_paths: Option<Vec<PathBuf>>,
) -> (r: ModuleLoader<H>)
    ensures
        r == (Settings { module_loader, search_paths, ..Settings::none() }).loader(),
{
    match (module_loader, search_paths) {
        (Some(loader), _) => loader,
        (None, Some(paths)) => ModuleLoader::BuiltinThenFiles(paths),
        (None, None) => ModuleLoader::Builtin,
    }
}

} // verus!
