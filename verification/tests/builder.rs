use ketos::builder::{Builder, Setting};
use ketos::context::{Context, GlobalIo, GlobalScope, ModuleLoader, RestrictConfig};
use ketos::host::Host;
use ketos::interpreter::Interpreter;
use ketos::setup::Setup;
use std::path::PathBuf;

struct Toy;

impl Host for Toy {
    type Context = u32;
    type Scope = u32;
    type Names = u32;
    type CodeMap = u32;
    type Modules = u32;
    type RestrictConfig = u32;
    type GlobalIo = u32;
    type ModuleLoader = u32;
    type Name = u32;
    type Value = i64;
    type Code = i64;
    type Offset = u32;
    type Span = u32;
    type ParseErrorKind = u32;
    type CompileError = u32;
    type ExecError = u32;
    type Error = u32;
    type Trace = u32;
}

/// What the engine is asked to make an interpreter from. It makes the name store 60, the name
/// 61, the code map 62, the registry 63, the scope 70 and the context 71.
struct Made {
    log: Vec<String>,
    loader: Option<ModuleLoader<Toy>>,
    global: Option<GlobalScope<Toy>>,
    restrict: Option<RestrictConfig<Toy>>,
    interpreter: Interpreter<Toy>,
}

fn make(first: Setup<Toy>) -> Made {
    let mut log = Vec::new();
    let mut loader = None;
    let mut global = None;
    let mut restrict = None;
    let mut setup = first;
    loop {
        setup = match setup {
            Setup::NewNames(s) => {
                log.push("names".to_string());
                s.resume(60)
            }
            Setup::AddScopeName(s) => {
                log.push(format!("name {} in {}", s.plan.name, s.names));
                s.resume(61)
            }
            Setup::NewCodeMap(s) => {
                log.push("codemap".to_string());
                s.resume(62)
            }
            Setup::NewModules(s) => {
                log.push("modules".to_string());
                loader = Some(s.loader);
                s.next.resume(63)
            }
            Setup::NewScope(s) => {
                log.push("scope".to_string());
                global = Some(s.global);
                s.next.resume(70)
            }
            Setup::NewContext(s) => {
                log.push(format!("context for {}", s.next.scope));
                restrict = Some(s.restrict);
                s.next.resume(71)
            }
            Setup::Ready(interpreter) => {
                return Made { log, loader, global, restrict, interpreter };
            }
        };
    }
}

fn loader(made: &Made) -> &ModuleLoader<Toy> {
    match &made.loader {
        Some(loader) => loader,
        None => panic!("no registry was made"),
    }
}

fn global(made: &Made) -> &GlobalScope<Toy> {
    match &made.global {
        Some(global) => global,
        None => panic!("no scope was made"),
    }
}

/// What is asked for when a scope of the given name is made.
fn from_nothing(name: &str) -> Vec<String> {
    let mut log = vec!["names".to_string()];
    log.push(format!("name {} in 60", name));
    for part in ["codemap", "modules", "scope", "context for 70"] {
        log.push(part.to_string());
    }
    log
}

fn is_permissive(made: &Made) -> bool {
    matches!(made.restrict, Some(RestrictConfig::Permissive))
}

fn is_plain(made: &Made) -> bool {
    let scope = global(made);
    is_permissive(made)
        && made.log == from_nothing("main")
        && matches!(scope.io, GlobalIo::Default)
        && *made.interpreter.scope() == 70
        && made.interpreter.context().handle == 71
}

fn with(setting: Setting) -> Builder<Toy> {
    set(Builder::new(), setting)
}

fn set(builder: Builder<Toy>, setting: Setting) -> Builder<Toy> {
    match setting {
        Setting::Name => builder.name("foo"),
        Setting::Context => builder.context(Context { scope: 3, handle: 4 }),
        Setting::Scope => builder.scope(5),
        Setting::Restrict => builder.restrict(RestrictConfig::Custom(6)),
        Setting::Io => builder.io(GlobalIo::Custom(7)),
        Setting::ModuleLoader => builder.module_loader(ModuleLoader::Custom(8)),
        Setting::SearchPaths => builder.search_paths(vec![PathBuf::from("lib")]),
    }
}

const ALL: [Setting; 7] = [
    Setting::Name,
    Setting::Context,
    Setting::Scope,
    Setting::Restrict,
    Setting::Io,
    Setting::ModuleLoader,
    Setting::SearchPaths,
];

#[test]
fn empty_builder_builds_new_interpreter() {
    let built = make(Builder::<Toy>::new().finish());
    assert!(is_plain(&built));
    assert!(matches!(*loader(&built), ModuleLoader::Builtin));
    let new = make(Interpreter::<Toy>::new());
    assert!(is_plain(&new));
    assert!(matches!(*loader(&new), ModuleLoader::Builtin));
}

#[test]
fn named_builder() {
    let built = make(Builder::<Toy>::new().name("foo").finish());
    assert_eq!(built.log, from_nothing("foo"));
    assert!(is_permissive(&built));
}

#[test]
fn scope_is_made_from_its_own_parts() {
    let built = make(with(Setting::Io).finish());
    let scope = global(&built);
    assert_eq!(scope.name, 61);
    assert_eq!(scope.names, 60);
    assert_eq!(scope.codemap, 62);
    assert_eq!(scope.modules, 63);
    assert!(matches!(scope.io, GlobalIo::Custom(7)));
}

#[test]
fn context_is_used_as_it_is() {
    let built = make(with(Setting::Context).finish());
    assert!(built.log.is_empty());
    let direct = Interpreter::<Toy>::with_context(Context { scope: 3, handle: 4 });
    for interpreter in [built.interpreter, direct] {
        assert_eq!(*interpreter.scope(), 3);
        assert_eq!(interpreter.context().handle, 4);
    }
}

#[test]
fn context_outweighs_earlier_io() {
    let built = make(set(with(Setting::Io), Setting::Context).finish());
    assert!(built.global.is_none());
    assert_eq!(*built.interpreter.scope(), 3);
}

#[test]
fn scope_gets_permissive_context() {
    for setup in [with(Setting::Scope).finish(), Interpreter::<Toy>::with_scope(5)] {
        let made = make(setup);
        assert_eq!(made.log, vec!["context for 5"]);
        assert!(is_permissive(&made));
        assert_eq!(*made.interpreter.scope(), 5);
        assert_eq!(made.interpreter.context().handle, 71);
    }
}

#[test]
fn scope_keeps_earlier_restriction() {
    let built = make(set(with(Setting::Restrict), Setting::Scope).finish());
    assert_eq!(*built.interpreter.scope(), 5);
    assert!(matches!(built.restrict, Some(RestrictConfig::Custom(6))));
}

#[test]
fn restriction_io_and_loader_reach_the_new_scope() {
    let builder = set(with(Setting::Restrict), Setting::Io);
    let built = make(set(builder, Setting::ModuleLoader).finish());
    assert!(matches!(built.restrict, Some(RestrictConfig::Custom(6))));
    let scope = global(&built);
    assert!(matches!(scope.io, GlobalIo::Custom(7)));
    assert!(matches!(*loader(&built), ModuleLoader::Custom(8)));
    assert_eq!(built.log, from_nothing("main"));
}

#[test]
fn loader_matches_constructor() {
    for setup in [
        with(Setting::ModuleLoader).finish(),
        Interpreter::<Toy>::with_loader(ModuleLoader::Custom(8)),
    ] {
        let made = make(setup);
        assert!(is_plain(&made));
        assert!(matches!(*loader(&made), ModuleLoader::Custom(8)));
    }
}

#[test]
fn search_paths_match_constructor() {
    for setup in [
        with(Setting::SearchPaths).finish(),
        Interpreter::<Toy>::with_search_paths(vec![PathBuf::from("lib")]),
    ] {
        let made = make(setup);
        assert!(is_plain(&made));
        match loader(&made) {
            ModuleLoader::BuiltinThenFiles(paths) => {
                assert_eq!(*paths, vec![PathBuf::from("lib")]);
            }
            _ => panic!("another loader"),
        }
    }
}

#[test]
fn conflicts_follow_the_order_of_calls() {
    // Rows: what has been set; columns: what is to be set.
    let expected = [
        [false, true, true, false, false, false, false],
        [true, false, true, true, true, true, true],
        [true, true, false, true, true, true, true],
        [false, true, false, false, false, false, false],
        [false, false, false, false, false, false, false],
        [false, true, true, true, false, false, true],
        [false, true, true, true, false, true, false],
    ];
    for (row, earlier) in ALL.iter().enumerate() {
        for (col, later) in ALL.iter().enumerate() {
            let conflict = with(*earlier).conflict(*later);
            if expected[row][col] {
                assert_eq!(conflict, Some(*earlier));
            } else {
                assert_eq!(conflict, None);
            }
        }
    }
}

#[test]
fn first_conflict_is_reported() {
    let builder = set(with(Setting::Restrict), Setting::Name);
    assert_eq!(builder.conflict(Setting::Context), Some(Setting::Name));
    assert_eq!(builder.conflict(Setting::Scope), Some(Setting::Name));
    assert_eq!(builder.conflict(Setting::Io), None);
}

#[test]
fn scope_and_module_loader_exclude_each_other() {
    assert_eq!(
        with(Setting::Scope).conflict(Setting::ModuleLoader),
        Some(Setting::Scope)
    );
    assert_eq!(
        with(Setting::ModuleLoader).conflict(Setting::Scope),
        Some(Setting::ModuleLoader)
    );
}

#[test]
fn conflict_messages() {
    assert_eq!(
        Setting::Scope.conflict_message(Setting::ModuleLoader),
        "`Builder::scope` and `Builder::module_loader` are mutually exclusive"
    );
    let names = ["name", "context", "scope", "restrict", "io", "module_loader", "search_paths"];
    for (setting, name) in ALL.iter().zip(names) {
        assert_eq!(
            setting.conflict_message(*setting),
            format!("`Builder::{}` and `Builder::{}` are mutually exclusive", name, name)
        );
    }
}

#[test]
fn clone_shares_the_context() {
    let interp = make(with(Setting::Name).finish()).interpreter;
    let copy = interp.clone();
    assert_eq!(*copy.scope(), 70);
    assert!(std::ptr::eq(interp.context(), copy.context()));
}
