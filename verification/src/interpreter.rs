//! Provides a context in which to compile and execute code.

use crate::context::{Context, GlobalIo, ModuleLoader, RestrictConfig, ScopePlan};
use crate::host::{Error, Host, ParseError, Value};
use crate::model::{
    Ending, ExprGoal, Goal, Lookup, NamedView, ProgramGoal, ProgramUse, Request, Returned, State,
};
use crate::setup::{new_context, new_scope, Setup, SetupState};
use crate::step::{
    add_source, call_value, execute_code, execute_program, get_named_value, optional_text,
    AddName, AddNamedValue, ClearCodeMap, DebugNames, Describe, DisplayNames, HighlightSpan, Named,
    OpenFile, Step,
};
use crate::text::contents;
use std::path::PathBuf;
use std::rc::Rc;
use vstd::prelude::*;

verus! {

/// Provides a context in which to compile and execute code.
///
/// Each operation that needs the engine returns the first [`Step`] of its work. The operation
/// is carried through by doing what each step says, in the context that the step carries, and
/// handing it the reply, until the work is done. Every step carries the interpreter's own
/// context.
///
/// Values created by one interpreter are exclusive to that interpreter. They should not be
/// passed directly into another interpreter. Specifically, unexpected behavior or a panic may
/// occur if another interpreter attempts to operate on names, or on any values which may
/// contain arbitrary values.
pub struct Interpreter<H: Host> {
    context: Rc<Context<H>>,
}

impl<H: Host> View for Interpreter<H> {
    type V = Context<H>;

    /// The context of the interpreter.
    closed spec fn view(&self) -> Context<H> {
        *self.context
    }
}

impl<H: Host> Clone for Interpreter<H> {
    /// Creates an interpreter that shares this one's context.
    fn clone(&self) -> (r: Self)
        ensures
            r@ == self@,
    {
        Interpreter { context: self.context.clone() }
    }
}

/// How the making of an interpreter with a scope of its own starts, without limits and with the
/// standard handles.
pub open spec fn main_setup<H: Host>(loader: ModuleLoader<H>) -> SetupState<H> {
    SetupState::NewNames {
        plan: ScopePlan { name: "main", loader, io: GlobalIo::Default },
        restrict: RestrictConfig::Permissive,
    }
}

/// The start of work on a source that holds one expression.
pub open spec fn on_expr<H: Host>(
    context: Context<H>,
    input: Seq<char>,
    path: Option<Seq<char>>,
    goal: ExprGoal,
) -> State<H> {
    State::Waiting(context, Request::AddSource { input, path, goal: Goal::Expr(goal) })
}

/// The start of work on a source that holds a series of expressions.
pub open spec fn on_program<H: Host>(
    context: Context<H>,
    input: Seq<char>,
    path: Option<Seq<char>>,
    skip_shebang: bool,
    goal: ProgramGoal,
) -> State<H> {
    State::Waiting(
        context,
        Request::AddSource { input, path, goal: Goal::Program { skip_shebang, goal } },
    )
}

/// The start of work on a single code object.
pub open spec fn on_code<H: Host>(context: Context<H>, code: H::Code) -> State<H> {
    State::Waiting(
        context,
        Request::Execute { code, rest: Seq::empty(), ending: Ending::Value },
    )
}

/// The start of work on showing an error.
pub open spec fn on_error<H: Host>(context: Context<H>, e: Error<H>) -> State<H> {
    State::Waiting(
        context,
        match e {
            Error::CompileError(e) => Request::DisplayNames { item: NamedView::CompileError(e) },
            Error::ExecError(e) => Request::DisplayNames { item: NamedView::ExecError(e) },
            Error::ParseError(e) => Request::HighlightSpan { error: e },
            _ => Request::Describe { error: e },
        },
    )
}

impl<H: Host> Interpreter<H> {
    /// Starts on making a new `Interpreter`.
    pub fn new() -> (r: Setup<H>)
        ensures
            r@ == main_setup::<H>(ModuleLoader::Builtin),
    {
        Interpreter::with_loader(ModuleLoader::Builtin)
    }

    /// Starts on making a new `Interpreter` using the given `ModuleLoader`.
    pub fn with_loader(loader: ModuleLoader<H>) -> (r: Setup<H>)
        ensures
            r@ == main_setup(loader),
    {
        new_scope(
            ScopePlan { name: "main", loader, io: GlobalIo::Default },
            RestrictConfig::Permissive,
        )
    }

    /// Creates a new `Interpreter` using the given `Context`.
    pub fn with_context(context: Context<H>) -> (r: Self)
        ensures
            r@ == context,
    {
        Interpreter { context: Rc::new(context) }
    }

    /// Starts on making a new `Interpreter` using the given scope.
    pub fn with_scope(scope: H::Scope) -> (r: Setup<H>)
        ensures
            r@ == (SetupState::<H>::NewContext { scope, restrict: RestrictConfig::Permissive }),
    {
        new_context(scope, RestrictConfig::Permissive)
    }

    /// Starts on making a new `Interpreter` that searches for module files in a given series of
    /// directories.
    pub fn with_search_paths(paths: Vec<PathBuf>) -> (r: Setup<H>)
        ensures
            r@ == main_setup::<H>(ModuleLoader::BuiltinThenFiles(paths)),
    {
        Interpreter::with_loader(ModuleLoader::BuiltinThenFiles(paths))
    }

    /// Makes another handle to the context.
    fn share(&self) -> (r: Rc<Context<H>>)
        ensures
            *r == self@,
    {
        self.context.clone()
    }

    /// Clears cached source from the contained code map.
    ///
    /// # Note
    ///
    /// This will invalidate any previously created `ParseError` values.
    pub fn clear_codemap<'a>(&self) -> (r: Step<'a, H>)
        ensures
            r@ == State::Waiting(self@, Request::ClearCodeMap),
    {
        Step::ClearCodeMap(ClearCodeMap { context: self.share() })
    }

    /// Prints an error to the standard error output.
    pub fn display_error<'a>(&self, e: &'a Error<H>) -> (r: Step<'a, H>)
        ensures
            r@ == on_error(self@, *e),
    {
        match e {
            Error::CompileError(e) => Step::DisplayNames(
                DisplayNames { context: self.share(), item: Named::CompileError(e) },
            ),
            Error::ExecError(e) => Step::DisplayNames(
                DisplayNames { context: self.share(), item: Named::ExecError(e) },
            ),
            Error::ParseError(e) => self.display_parse_error(e),
            _ => Step::Describe(Describe { context: self.share(), error: e }),
        }
    }

    /// Prints traceback information to the standard error output.
    pub fn display_trace<'a>(&self, trace: &'a H::Trace) -> (r: Step<'a, H>)
        ensures
            r@ == State::Waiting(self@, (Request::DisplayNames { item: NamedView::Trace(*trace) })),
    {
        Step::DisplayNames(DisplayNames { context: self.share(), item: Named::Trace(trace) })
    }

    fn display_parse_error<'a>(&self, e: &'a ParseError<H>) -> (r: Step<'a, H>)
        ensures
            r@ == State::Waiting(self@, (Request::HighlightSpan { error: *e })),
    {
        Step::HighlightSpan(HighlightSpan { context: self.share(), error: e })
    }

    /// Prints a string representation of a value to the standard output.
    pub fn display_value<'a>(&self, value: &'a Value<H>) -> (r: Step<'a, H>)
        ensures
            r@ == State::Waiting(self@, (Request::DebugNames { value: *value, print: true })),
    {
        Step::DebugNames(DebugNames { context: self.share(), value, print: true })
    }

    /// Formats a value into a string.
    pub fn format_value<'a>(&self, value: &'a Value<H>) -> (r: Step<'a, H>)
        ensures
            r@ == State::Waiting(self@, (Request::DebugNames { value: *value, print: false })),
    {
        Step::DebugNames(DebugNames { context: self.share(), value, print: false })
    }

    /// Executes a bare code object taking no parameters.
    pub fn execute<'a>(&self, code: H::Code) -> (r: Step<'a, H>)
        ensures
            r@ == on_code(self@, code),
    {
        self.execute_code(Rc::new(code))
    }

    /// Executes a shared code object taking no parameters.
    pub fn execute_code<'a>(&self, code: Rc<H::Code>) -> (r: Step<'a, H>)
        ensures
            r@ == on_code(self@, *code),
    {
        execute_code(self.share(), code)
    }

    /// Executes a series of code objects sequentially and returns the value of the final
    /// expression. If `code` is empty, the value `()` is returned.
    pub fn execute_program<'a>(&self, code: Vec<H::Code>) -> (r: Step<'a, H>)
        ensures
            r@ == State::executing(self@, code@, Value::Unit, Ending::Value),
    {
        execute_program(self.share(), code, Ending::Value)
    }

    /// Calls a named function with the given arguments.
    pub fn call<'a>(&self, name: &str, args: Vec<Value<H>>) -> (r: Step<'a, H>)
        ensures
            r@ == State::Waiting(self@, (Request::AddName { name: name@, args: args@ })),
    {
        Step::AddName(AddName { context: self.share(), name: name.to_owned(), args })
    }

    /// Calls a function with the given arguments.
    pub fn call_value<'a>(&self, value: Value<H>, args: Vec<Value<H>>) -> (r: Step<'a, H>)
        ensures
            r@ == State::Waiting(
                self@,
                (Request::CallFunction { value, args: args@, returned: Returned::Keep }),
            ),
    {
        call_value(self.share(), value, args, Returned::Keep)
    }

    /// Returns a value, if present, in the interpreter scope.
    pub fn get_value<'a>(&self, name: &str) -> (r: Step<'a, H>)
        ensures
            r@ == State::Waiting(
                self@,
                (Request::GetNamedValue { name: name@, lookup: Lookup::Return }),
            ),
    {
        get_named_value(self.share(), name, Lookup::Return)
    }

    /// Returns a borrowed reference to the contained context.
    pub fn context(&self) -> (r: &Context<H>)
        ensures
            *r == self@,
    {
        &self.context
    }

    /// Returns a borrowed reference to the contained scope.
    pub fn scope(&self) -> (r: &H::Scope)
        ensures
            *r == self@.scope,
    {
        self.context.scope()
    }

    /// Sets the value of `argv` within the execution scope.
    pub fn set_args<'a>(&self, args: &[&str]) -> (r: Step<'a, H>)
        ensures
            r@ == State::Waiting(
                self@,
                (Request::AddNamedValue {
                    name: "argv"@,
                    strings: args@.map_values(|arg: &str| arg@),
                }),
            ),
    {
        let mut strings: Vec<String> = Vec::new();
        let mut i: usize = 0;
        while i < args.len()
            invariant
                i <= args.len(),
                contents(strings@) == args@.take(i as int).map_values(|arg: &str| arg@),
            decreases args.len() - i,
        {
            let ghost before = strings@;
            strings.push(args[i].to_owned());
            i += 1;
            assert(contents(strings@) =~= contents(before).push(args@[i - 1]@));
            assert(args@.take(i as int).map_values(|arg: &str| arg@) =~= args@.take(
                i - 1,
            ).map_values(|arg: &str| arg@).push(args@[i - 1]@));
        }
        assert(args@.take(i as int) =~= args@);
        Step::AddNamedValue(
            AddNamedValue { context: self.share(), name: "argv".to_owned(), strings },
        )
    }

    /// Compiles and executes the contents of a file.
    pub fn run_file<'a>(&self, path: PathBuf) -> (r: Step<'a, H>)
        ensures
            r@ == State::Waiting(self@, (Request::OpenFile { path })),
    {
        Step::OpenFile(OpenFile { context: self.share(), path })
    }

    /// Compiles and executes an input expression.
    pub fn run_single_expr<'a>(&self, input: &str, path: Option<String>) -> (r: Step<'a, H>)
        ensures
            r@ == on_expr(self@, input@, optional_text(path), ExprGoal::Run),
    {
        add_source(self.share(), input.to_owned(), path, Goal::Expr(ExprGoal::Run))
    }

    /// Parses and executes a series of expressions and return the last value.
    pub fn run_code<'a>(&self, input: &str, path: Option<String>) -> (r: Step<'a, H>)
        ensures
            r@ == on_program(
                self@,
                input@,
                optional_text(path),
                false,
                ProgramGoal::Compile(ProgramUse::Run),
            ),
    {
        self.compile_code(input, path, ProgramUse::Run)
    }

    /// Parses and compiles a single expression and returns a code object.
    /// If the input string contains more than one expression, an error is returned.
    pub fn compile_single_expr<'a>(&self, input: &str, path: Option<String>) -> (r: Step<'a, H>)
        ensures
            r@ == on_expr(self@, input@, optional_text(path), ExprGoal::Compile),
    {
        add_source(self.share(), input.to_owned(), path, Goal::Expr(ExprGoal::Compile))
    }

    /// Parses and compiles a series of expressions.
    pub fn compile_exprs<'a>(&self, input: &str) -> (r: Step<'a, H>)
        ensures
            r@ == on_program(
                self@,
                input@,
                None,
                false,
                ProgramGoal::Compile(ProgramUse::Return),
            ),
    {
        self.compile_code(input, None, ProgramUse::Return)
    }

    /// Parses a single expression and returns it as a `Value`.
    /// If `input` contains more than one expression, an error is returned.
    pub fn parse_single_expr<'a>(&self, input: &str, path: Option<String>) -> (r: Step<'a, H>)
        ensures
            r@ == on_expr(self@, input@, optional_text(path), ExprGoal::Parse),
    {
        add_source(self.share(), input.to_owned(), path, Goal::Expr(ExprGoal::Parse))
    }

    /// Parses a series of expressions and returns them as `Value`s.
    pub fn parse_exprs<'a>(&self, input: &str, path: Option<String>) -> (r: Step<'a, H>)
        ensures
            r@ == on_program(self@, input@, optional_text(path), false, ProgramGoal::Parse),
    {
        add_source(
            self.share(),
            input.to_owned(),
            path,
            Goal::Program { skip_shebang: false, goal: ProgramGoal::Parse },
        )
    }

    /// Parses a series of expressions from the contents of a file and returns them as
    /// `Value`s.
    pub fn parse_file<'a>(&self, input: &str, path: Option<String>) -> (r: Step<'a, H>)
        ensures
            r@ == on_program(self@, input@, optional_text(path), true, ProgramGoal::Parse),
    {
        add_source(
            self.share(),
            input.to_owned(),
            path,
            Goal::Program { skip_shebang: true, goal: ProgramGoal::Parse },
        )
    }

    fn compile_code<'a>(&self, input: &str, path: Option<String>, usage: ProgramUse) -> (r: Step<
        'a,
        H,
    >)
        ensures
            r@ == on_program(
                self@,
                input@,
                optional_text(path),
                false,
                ProgramGoal::Compile(usage),
            ),
    {
        add_source(
            self.share(),
            input.to_owned(),
            path,
            Goal::Program { skip_shebang: false, goal: ProgramGoal::Compile(usage) },
        )
    }
}

} // verus!
