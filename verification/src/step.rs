//! The executable form of the work: each step names one thing that the engine has to do, and
//! takes the engine's reply to find the next step.
//!
//! A step carries the context that its work belongs to, and the engine call is made in that
//! context. A step lends its fields to the call. Where the call consumes a field, the step has a
//! part of its own, `next`, that holds the context and takes the reply.

use crate::context::Context;
use crate::host::{path_to_text, Error, ExecError, Host, IoError, IoMode, ParseError, Value};
use crate::model::{
    CompiledView, Ending, ExprGoal, Goal, Lookup, NamedView, OutputView, ProgramGoal, ProgramUse,
    Reply, Request, Returned, State, Stream,
};
use crate::text::{contents, joined, parse_error_text, Highlight};
use std::collections::VecDeque;
use std::path::PathBuf;
use std::rc::Rc;
use vstd::prelude::*;
use vstd::string::StringExecFns;

verus! {

/// The result of a finished piece of work.
pub enum Output<H: Host> {
    /// Nothing.
    Unit,
    /// A value.
    Value(Value<H>),
    /// A value, if the scope has one.
    Found(Option<Value<H>>),
    /// A series of expressions.
    Exprs(Vec<Value<H>>),
    /// A code object.
    Code(H::Code),
    /// A series of code objects.
    Program(Vec<H::Code>),
    /// A text.
    Text(String),
}

impl<H: Host> View for Output<H> {
    type V = OutputView<H>;

    open spec fn view(&self) -> OutputView<H> {
        match *self {
            Output::Unit => OutputView::Unit,
            Output::Value(value) => OutputView::Value(value),
            Output::Found(found) => OutputView::Found(found),
            Output::Exprs(exprs) => OutputView::Exprs(exprs@),
            Output::Code(code) => OutputView::Code(code),
            Output::Program(codes) => OutputView::Program(codes@),
            Output::Text(text) => OutputView::Text(text@),
        }
    }
}

/// The next thing that the engine has to do, or the end of the work.
pub enum Step<'a, H: Host> {
    /// Open a file.
    OpenFile(OpenFile<H>),
    /// Read the open file to its end.
    ReadFile(ReadFile<H>),
    /// Add a source to the code map.
    AddSource(AddSource<H>),
    /// Parse the one expression of a source.
    ParseSingleExpr(ParseSingleExpr<H>),
    /// Parse all expressions of a source.
    ParseExprs(ParseExprs<H>),
    /// Compile an expression.
    Compile(Compile<H>),
    /// Execute a code object.
    Execute(Execute<H>),
    /// Intern a name.
    AddName(AddName<H>),
    /// Look up the value of an interned name.
    GetValue(GetValue<H>),
    /// Look up a value by the text of its name.
    GetNamedValue(GetNamedValue<H>),
    /// Call a function.
    CallFunction(CallFunction<H>),
    /// Give a name a list of strings as its value.
    AddNamedValue(AddNamedValue<H>),
    /// Drop all sources from the code map.
    ClearCodeMap(ClearCodeMap<H>),
    /// Show a thing with its names spelled out.
    DisplayNames(DisplayNames<'a, H>),
    /// Show the place and the kind of a parse error.
    HighlightSpan(HighlightSpan<'a, H>),
    /// Show an error of another kind.
    Describe(Describe<'a, H>),
    /// Show a value with its names spelled out.
    DebugNames(DebugNames<'a, H>),
    /// Print lines.
    Print(Print<H>),
    /// Nothing: the work has ended.
    Done(Result<Output<H>, Error<H>>),
}

impl<'a, H: Host> View for Step<'a, H> {
    type V = State<H>;

    open spec fn view(&self) -> State<H> {
        match *self {
            Step::OpenFile(step) => step.state(),
            Step::ReadFile(step) => step.state(),
            Step::AddSource(step) => step.state(),
            Step::ParseSingleExpr(step) => step.state(),
            Step::ParseExprs(step) => step.state(),
            Step::Compile(step) => step.state(),
            Step::Execute(step) => step.state(),
            Step::AddName(step) => step.state(),
            Step::GetValue(step) => step.state(),
            Step::GetNamedValue(step) => step.state(),
            Step::CallFunction(step) => step.state(),
            Step::AddNamedValue(step) => step.state(),
            Step::ClearCodeMap(step) => step.state(),
            Step::DisplayNames(step) => step.state(),
            Step::HighlightSpan(step) => step.state(),
            Step::Describe(step) => step.state(),
            Step::DebugNames(step) => step.state(),
            Step::Print(step) => step.state(),
            Step::Done(result) => State::Done(
                match result {
                    Ok(output) => Ok(output@),
                    Err(error) => Err(error),
                },
            ),
        }
    }
}

/// Moves a vector into a queue, first element at the front.
fn queue<T>(items: Vec<T>) -> (r: VecDeque<T>)
    ensures
        r@ == items@,
{
    let ghost all = items@;
    let mut items = items;
    let mut r: VecDeque<T> = VecDeque::new();
    while items.len() > 0
        invariant
            items@ + r@ == all,
        decreases items.len(),
    {
        let ghost before = items@;
        let ghost behind = r@;
        if let Some(item) = items.pop() {
            r.push_front(item);
            assert(items@ + r@ =~= before + behind);
        }
    }
    assert(r@ =~= all);
    r
}

/// The text of an optional string.
pub open spec fn optional_text(text: Option<String>) -> Option<Seq<char>> {
    match text {
        Some(text) => Some(text@),
        None => None,
    }
}

/// Starts on a source.
pub(crate) fn add_source<'a, H: Host>(
    context: Rc<Context<H>>,
    input: String,
    path: Option<String>,
    goal: Goal,
) -> (r: Step<'a, H>)
    ensures
        r@ == State::Waiting(
            *context,
            (Request::AddSource { input: input@, path: optional_text(path), goal }),
        ),
{
    Step::AddSource(AddSource { context, input, path, goal })
}

/// Starts on running the contents of a file.
fn run_main<'a, H: Host>(context: Rc<Context<H>>, input: String, path: String) -> (r: Step<'a, H>)
    ensures
        r@ == State::Waiting(
            *context,
            (Request::AddSource {
                input: input@,
                path: Some(path@),
                goal: Goal::Program {
                    skip_shebang: true,
                    goal: ProgramGoal::Compile(ProgramUse::RunMain),
                },
            }),
        ),
{
    add_source(
        context,
        input,
        Some(path),
        Goal::Program { skip_shebang: true, goal: ProgramGoal::Compile(ProgramUse::RunMain) },
    )
}

/// Goes on to the first of a series of code objects, or past the end of it.
fn execute_next<'a, H: Host>(
    context: Rc<Context<H>>,
    codes: VecDeque<H::Code>,
    last: Value<H>,
    ending: Ending,
) -> (r: Step<'a, H>)
    ensures
        r@ == State::executing(*context, codes@, last, ending),
{
    let mut rest = codes;
    match rest.pop_front() {
        Some(code) => {
            assert(rest@ =~= codes@.drop_first());
            Step::Execute(
                Execute { code: Rc::new(code), next: Executing { context, rest, ending } },
            )
        },
        None => match ending {
            Ending::Value => Step::Done(Ok(Output::Value(last))),
            Ending::Main => call_main(context),
        },
    }
}

/// Starts on a compiled program.
pub(crate) fn execute_program<'a, H: Host>(
    context: Rc<Context<H>>,
    codes: Vec<H::Code>,
    ending: Ending,
) -> (r: Step<'a, H>)
    ensures
        r@ == State::executing(*context, codes@, Value::Unit, ending),
{
    execute_next(context, queue(codes), Value::Unit, ending)
}

/// Starts on the call of the `main` function.
fn call_main<'a, H: Host>(context: Rc<Context<H>>) -> (r: Step<'a, H>)
    ensures
        r@ == State::Waiting(
            *context,
            (Request::GetNamedValue { name: "main"@, lookup: Lookup::CallMain }),
        ),
{
    get_named_value(context, "main", Lookup::CallMain)
}

/// Starts on looking a value up by the text of its name.
pub(crate) fn get_named_value<'a, H: Host>(
    context: Rc<Context<H>>,
    name: &str,
    lookup: Lookup,
) -> (r: Step<'a, H>)
    ensures
        r@ == State::Waiting(*context, (Request::GetNamedValue { name: name@, lookup })),
{
    Step::GetNamedValue(GetNamedValue { context, name: name.to_owned(), lookup })
}

/// Goes on to the first of a series of expressions, or past the end of it.
fn compile_next<'a, H: Host>(
    context: Rc<Context<H>>,
    exprs: VecDeque<Value<H>>,
    done: Vec<H::Code>,
    usage: ProgramUse,
) -> (r: Step<'a, H>)
    ensures
        r@ == State::compiling(*context, exprs@, done@, usage),
{
    let mut rest = exprs;
    match rest.pop_front() {
        Some(expr) => {
            assert(rest@ =~= exprs@.drop_first());
            Step::Compile(Compile { context, expr, next: Compiled::Collect { rest, done, usage } })
        },
        None => match usage {
            ProgramUse::Return => Step::Done(Ok(Output::Program(done))),
            ProgramUse::Run => execute_program(context, done, Ending::Value),
            ProgramUse::RunMain => execute_program(context, done, Ending::Main),
        },
    }
}

/// Open the file at `path`, and reply with how that went.
pub struct OpenFile<H: Host> {
    /// The context of the work.
    pub context: Rc<Context<H>>,
    /// The file.
    pub path: PathBuf,
}

impl<H: Host> OpenFile<H> {
    /// The state of the work at this step.
    pub open spec fn state(self) -> State<H> {
        State::Waiting(*self.context, Request::OpenFile { path: self.path })
    }

    /// Goes on to reading the file, or ends with the failure to open it.
    pub fn resume<'a>(self, reply: Result<(), std::io::Error>) -> (r: Step<'a, H>)
        ensures
            self.state().react(Reply::Opened(reply)) == Some(r@),
    {
        match reply {
            Ok(_) => Step::ReadFile(ReadFile { context: self.context, path: self.path }),
            Err(err) => Step::Done(
                Err(Error::IoError(IoError { mode: IoMode::Open, path: self.path, err })),
            ),
        }
    }
}

/// Read the file that was opened, and reply with its text.
pub struct ReadFile<H: Host> {
    /// The context of the work.
    pub context: Rc<Context<H>>,
    /// The file.
    pub path: PathBuf,
}

impl<H: Host> ReadFile<H> {
    /// The state of the work at this step.
    pub open spec fn state(self) -> State<H> {
        State::Waiting(*self.context, Request::ReadFile { path: self.path })
    }

    /// Goes on to running the text of the file, or ends with the failure to read it.
    pub fn resume<'a>(self, reply: Result<String, std::io::Error>) -> (r: Step<'a, H>)
        ensures
            self.state().react(
                Reply::Read(
                    match reply {
                        Ok(input) => Ok(input@),
                        Err(err) => Err(err),
                    },
                ),
            ) == Some(r@),
    {
        match reply {
            Ok(input) => run_main(self.context, input, path_to_text(&self.path)),
            Err(err) => Step::Done(
                Err(Error::IoError(IoError { mode: IoMode::Read, path: self.path, err })),
            ),
        }
    }
}

/// Add `input` to the code map of the scope under the name `path`, and reply with the offset
/// that the code map gave it.
pub struct AddSource<H: Host> {
    /// The context of the work.
    pub context: Rc<Context<H>>,
    /// The text.
    pub input: String,
    /// The name of the file that it came from, if it came from one.
    pub path: Option<String>,
    /// What is wanted of it.
    pub goal: Goal,
}

impl<H: Host> AddSource<H> {
    /// The state of the work at this step.
    pub open spec fn state(self) -> State<H> {
        State::Waiting(
            *self.context,
            Request::AddSource {
                input: self.input@,
                path: optional_text(self.path),
                goal: self.goal,
            },
        )
    }

    /// Goes on to parsing the text.
    pub fn resume<'a>(self, offset: H::Offset) -> (r: Step<'a, H>)
        ensures
            self.state().react(Reply::Offset(offset)) == Some(r@),
    {
        match self.goal {
            Goal::Expr(goal) => Step::ParseSingleExpr(
                ParseSingleExpr { context: self.context, input: self.input, offset, goal },
            ),
            Goal::Program { skip_shebang, goal } => Step::ParseExprs(
                ParseExprs {
                    context: self.context,
                    input: self.input,
                    offset,
                    skip_shebang,
                    goal,
                },
            ),
        }
    }
}

/// Parse `input`, whose first character is at `offset` in the code map, as a single expression,
/// and reply with the expression or the error.
pub struct ParseSingleExpr<H: Host> {
    /// The context of the work.
    pub context: Rc<Context<H>>,
    /// The text.
    pub input: String,
    /// Where it starts in the code map.
    pub offset: H::Offset,
    /// What is wanted of it.
    pub goal: ExprGoal,
}

impl<H: Host> ParseSingleExpr<H> {
    /// The state of the work at this step.
    pub open spec fn state(self) -> State<H> {
        State::Waiting(
            *self.context,
            Request::ParseSingleExpr { input: self.input@, offset: self.offset, goal: self.goal },
        )
    }

    /// Goes on to compiling the expression, or ends with it or with the error.
    pub fn resume<'a>(self, reply: Result<Value<H>, Error<H>>) -> (r: Step<'a, H>)
        ensures
            self.state().react(Reply::Expr(reply)) == Some(r@),
    {
        match reply {
            Err(e) => Step::Done(Err(e)),
            Ok(expr) => match self.goal {
                ExprGoal::Parse => Step::Done(Ok(Output::Value(expr))),
                ExprGoal::Compile => Step::Compile(
                    Compile { context: self.context, expr, next: Compiled::Return },
                ),
                ExprGoal::Run => Step::Compile(
                    Compile { context: self.context, expr, next: Compiled::Run },
                ),
            },
        }
    }
}

/// Parse `input`, whose first character is at `offset` in the code map, as a series of
/// expressions, after passing over a shebang line if `skip_shebang` is set, and reply with the
/// expressions or the error.
pub struct ParseExprs<H: Host> {
    /// The context of the work.
    pub context: Rc<Context<H>>,
    /// The text.
    pub input: String,
    /// Where it starts in the code map.
    pub offset: H::Offset,
    /// Whether a first line that starts with `#!` is passed over.
    pub skip_shebang: bool,
    /// What is wanted of it.
    pub goal: ProgramGoal,
}

impl<H: Host> ParseExprs<H> {
    /// The state of the work at this step.
    pub open spec fn state(self) -> State<H> {
        State::Waiting(
            *self.context,
            Request::ParseExprs {
                input: self.input@,
                offset: self.offset,
                skip_shebang: self.skip_shebang,
                goal: self.goal,
            },
        )
    }

    /// Goes on to compiling the expressions, or ends with them or with the error.
    pub fn resume<'a>(self, reply: Result<Vec<Value<H>>, Error<H>>) -> (r: Step<'a, H>)
        ensures
            self.state().react(
                Reply::Exprs(
                    match reply {
                        Ok(exprs) => Ok(exprs@),
                        Err(e) => Err(e),
                    },
                ),
            ) == Some(r@),
    {
        match reply {
            Err(e) => Step::Done(Err(e)),
            Ok(exprs) => match self.goal {
                ProgramGoal::Parse => Step::Done(Ok(Output::Exprs(exprs))),
                ProgramGoal::Compile(usage) => compile_next(
                    self.context,
                    queue(exprs),
                    Vec::new(),
                    usage,
                ),
            },
        }
    }
}

/// What becomes of a compiled code object.
pub enum Compiled<H: Host> {
    /// It is the result.
    Return,
    /// It is executed.
    Run,
    /// It joins the program.
    Collect {
        /// The expressions that are still to be compiled.
        rest: VecDeque<Value<H>>,
        /// The code objects so far.
        done: Vec<H::Code>,
        /// What the program is for.
        usage: ProgramUse,
    },
}

impl<H: Host> View for Compiled<H> {
    type V = CompiledView<H>;

    open spec fn view(&self) -> CompiledView<H> {
        match *self {
            Compiled::Return => CompiledView::Return,
            Compiled::Run => CompiledView::Run,
            Compiled::Collect { rest, done, usage } => CompiledView::Collect {
                rest: rest@,
                done: done@,
                usage,
            },
        }
    }
}

/// Compile `expr` in the context, and reply with the code object or the error.
pub struct Compile<H: Host> {
    /// The context of the work.
    pub context: Rc<Context<H>>,
    /// The expression.
    pub expr: Value<H>,
    /// What becomes of its code.
    pub next: Compiled<H>,
}

impl<H: Host> Compile<H> {
    /// The state of the work at this step.
    pub open spec fn state(self) -> State<H> {
        State::Waiting(*self.context, Request::Compile { expr: self.expr, next: self.next@ })
    }

    /// Goes on with the code object, or ends with it or with the error.
    pub fn resume<'a>(self, reply: Result<H::Code, Error<H>>) -> (r: Step<'a, H>)
        ensures
            self.state().react(Reply::Code(reply)) == Some(r@),
    {
        match reply {
            Err(e) => Step::Done(Err(e)),
            Ok(code) => match self.next {
                Compiled::Return => Step::Done(Ok(Output::Code(code))),
                Compiled::Run => execute_code(self.context, Rc::new(code)),
                Compiled::Collect { rest, done, usage } => {
                    let mut done = done;
                    done.push(code);
                    compile_next(self.context, rest, done, usage)
                },
            },
        }
    }
}

/// What follows the execution of a code object.
pub struct Executing<H: Host> {
    /// The context of the work.
    pub context: Rc<Context<H>>,
    /// The code objects that are still to be executed.
    pub rest: VecDeque<H::Code>,
    /// What follows the last one.
    pub ending: Ending,
}

impl<H: Host> Executing<H> {
    /// Goes on to the next code object or past the last one, or ends with the error.
    pub fn resume<'a>(self, reply: Result<Value<H>, Error<H>>) -> (r: Step<'a, H>)
        ensures
            r@ == State::executed(*self.context, self.rest@, self.ending, reply),
    {
        match reply {
            Err(e) => Step::Done(Err(e)),
            Ok(value) => execute_next(self.context, self.rest, value, self.ending),
        }
    }
}

/// Starts on a single code object.
pub(crate) fn execute_code<'a, H: Host>(context: Rc<Context<H>>, code: Rc<H::Code>) -> (r: Step<
    'a,
    H,
>)
    ensures
        r@ == State::Waiting(
            *context,
            (Request::Execute { code: *code, rest: Seq::empty(), ending: Ending::Value }),
        ),
{
    Step::Execute(
        Execute {
            code,
            next: Executing { context, rest: VecDeque::new(), ending: Ending::Value },
        },
    )
}

/// Execute `code` in the context, and reply to `next` with its value or the error.
pub struct Execute<H: Host> {
    /// The code object.
    pub code: Rc<H::Code>,
    /// What follows it.
    pub next: Executing<H>,
}

impl<H: Host> Execute<H> {
    /// The state of the work at this step.
    pub open spec fn state(self) -> State<H> {
        State::Waiting(
            *self.next.context,
            Request::Execute { code: *self.code, rest: self.next.rest@, ending: self.next.ending },
        )
    }
}

/// Intern `name` in the name store of the scope, and reply with the interned name.
pub struct AddName<H: Host> {
    /// The context of the work.
    pub context: Rc<Context<H>>,
    /// The name.
    pub name: String,
    /// The arguments that the function of that name is to be called with.
    pub args: Vec<Value<H>>,
}

impl<H: Host> AddName<H> {
    /// The state of the work at this step.
    pub open spec fn state(self) -> State<H> {
        State::Waiting(*self.context, Request::AddName { name: self.name@, args: self.args@ })
    }

    /// Goes on to looking the name up.
    pub fn resume<'a>(self, name: H::Name) -> (r: Step<'a, H>)
        ensures
            self.state().react(Reply::Name(name)) == Some(r@),
    {
        Step::GetValue(GetValue { context: self.context, name, args: self.args })
    }
}

/// Look up the value of `name` in the scope, and reply with the value if there is one.
pub struct GetValue<H: Host> {
    /// The context of the work.
    pub context: Rc<Context<H>>,
    /// The name.
    pub name: H::Name,
    /// The arguments that its value is to be called with.
    pub args: Vec<Value<H>>,
}

impl<H: Host> GetValue<H> {
    /// The state of the work at this step.
    pub open spec fn state(self) -> State<H> {
        State::Waiting(*self.context, Request::GetValue { name: self.name, args: self.args@ })
    }

    /// Goes on to the call, or ends with the error that the name has no value.
    pub fn resume<'a>(self, found: Option<Value<H>>) -> (r: Step<'a, H>)
        ensures
            self.state().react(Reply::Found(found)) == Some(r@),
    {
        match found {
            Some(value) => call_value(self.context, value, self.args, Returned::Keep),
            None => Step::Done(Err(Error::ExecError(ExecError::NameError(self.name)))),
        }
    }
}

/// Look up a value by the text of its name in the scope, and reply with the value if there is
/// one.
pub struct GetNamedValue<H: Host> {
    /// The context of the work.
    pub context: Rc<Context<H>>,
    /// The name.
    pub name: String,
    /// What its value is for.
    pub lookup: Lookup,
}

impl<H: Host> GetNamedValue<H> {
    /// The state of the work at this step.
    pub open spec fn state(self) -> State<H> {
        State::Waiting(
            *self.context,
            Request::GetNamedValue { name: self.name@, lookup: self.lookup },
        )
    }

    /// Ends with the value, or goes on to calling it.
    pub fn resume<'a>(self, found: Option<Value<H>>) -> (r: Step<'a, H>)
        ensures
            self.state().react(Reply::Found(found)) == Some(r@),
    {
        match self.lookup {
            Lookup::Return => Step::Done(Ok(Output::Found(found))),
            Lookup::CallMain => match found {
                Some(value) => call_value(self.context, value, Vec::new(), Returned::Discard),
                None => Step::Done(Ok(Output::Unit)),
            },
        }
    }
}

/// Starts on a function call.
pub(crate) fn call_value<'a, H: Host>(
    context: Rc<Context<H>>,
    value: Value<H>,
    args: Vec<Value<H>>,
    returned: Returned,
) -> (r: Step<'a, H>)
    ensures
        r@ == State::Waiting(*context, (Request::CallFunction { value, args: args@, returned })),
{
    Step::CallFunction(CallFunction { value, args, next: Calling { context, returned } })
}

/// What follows a function call.
pub struct Calling<H: Host> {
    /// The context of the work.
    pub context: Rc<Context<H>>,
    /// What becomes of the value that the function returns.
    pub returned: Returned,
}

impl<H: Host> Calling<H> {
    /// Ends with the value, without it, or with the error.
    pub fn resume<'a>(self, reply: Result<Value<H>, Error<H>>) -> (r: Step<'a, H>)
        ensures
            r@ == State::called(self.returned, reply),
    {
        match reply {
            Err(e) => Step::Done(Err(e)),
            Ok(value) => match self.returned {
                Returned::Keep => Step::Done(Ok(Output::Value(value))),
                Returned::Discard => Step::Done(Ok(Output::Unit)),
            },
        }
    }
}

/// Call `value` with `args` in the context, and reply to `next` with what it returns or with the
/// error.
pub struct CallFunction<H: Host> {
    /// The function.
    pub value: Value<H>,
    /// Its arguments.
    pub args: Vec<Value<H>>,
    /// What follows the call.
    pub next: Calling<H>,
}

impl<H: Host> CallFunction<H> {
    /// The state of the work at this step.
    pub open spec fn state(self) -> State<H> {
        State::Waiting(
            *self.next.context,
            Request::CallFunction {
                value: self.value,
                args: self.args@,
                returned: self.next.returned,
            },
        )
    }
}

/// Give `name` the list of `strings` as its value in the scope.
pub struct AddNamedValue<H: Host> {
    /// The context of the work.
    pub context: Rc<Context<H>>,
    /// The name.
    pub name: String,
    /// The strings.
    pub strings: Vec<String>,
}

impl<H: Host> AddNamedValue<H> {
    /// The state of the work at this step.
    pub open spec fn state(self) -> State<H> {
        State::Waiting(
            *self.context,
            Request::AddNamedValue { name: self.name@, strings: contents(self.strings@) },
        )
    }

    /// Ends the work.
    pub fn resume<'a>(self) -> (r: Step<'a, H>)
        ensures
            self.state().react(Reply::Ack) == Some(r@),
    {
        Step::Done(Ok(Output::Unit))
    }
}

/// Drop all sources from the code map of the scope.
pub struct ClearCodeMap<H: Host> {
    /// The context of the work.
    pub context: Rc<Context<H>>,
}

impl<H: Host> ClearCodeMap<H> {
    /// The state of the work at this step.
    pub open spec fn state(self) -> State<H> {
        State::Waiting(*self.context, Request::ClearCodeMap)
    }

    /// Ends the work.
    pub fn resume<'a>(self) -> (r: Step<'a, H>)
        ensures
            self.state().react(Reply::Ack) == Some(r@),
    {
        Step::Done(Ok(Output::Unit))
    }
}

/// A thing that is shown with its names spelled out.
pub enum Named<'a, H: Host> {
    /// A compile error.
    CompileError(&'a H::CompileError),
    /// An execution error.
    ExecError(&'a ExecError<H>),
    /// A traceback.
    Trace(&'a H::Trace),
}

impl<'a, H: Host> View for Named<'a, H> {
    type V = NamedView<H>;

    open spec fn view(&self) -> NamedView<H> {
        match *self {
            Named::CompileError(e) => NamedView::CompileError(*e),
            Named::ExecError(e) => NamedView::ExecError(*e),
            Named::Trace(trace) => NamedView::Trace(*trace),
        }
    }
}

/// Show `item` as text, with names from the name store of the scope, and reply with the text.
pub struct DisplayNames<'a, H: Host> {
    /// The context of the work.
    pub context: Rc<Context<H>>,
    /// The thing to show.
    pub item: Named<'a, H>,
}

impl<'a, H: Host> DisplayNames<'a, H> {
    /// The state of the work at this step.
    pub open spec fn state(self) -> State<H> {
        State::Waiting(*self.context, Request::DisplayNames { item: self.item@ })
    }

    /// Goes on to printing the text under its heading.
    pub fn resume(self, text: String) -> (r: Step<'a, H>)
        ensures
            self.state().react(Reply::Shown(text@)) == Some(r@),
    {
        let heading = match self.item {
            Named::CompileError(_) => "compile error: ",
            Named::ExecError(_) => "execution error: ",
            Named::Trace(_) => "Traceback:\n\n",
        };
        print_line(self.context, Stream::Stderr, joined(heading, text.as_str()))
    }
}

/// Highlight the place of the error in the code map of the scope, show its kind as text, and
/// reply with both.
pub struct HighlightSpan<'a, H: Host> {
    /// The context of the work.
    pub context: Rc<Context<H>>,
    /// The error.
    pub error: &'a ParseError<H>,
}

impl<'a, H: Host> HighlightSpan<'a, H> {
    /// The state of the work at this step.
    pub open spec fn state(self) -> State<H> {
        State::Waiting(*self.context, Request::HighlightSpan { error: *self.error })
    }

    /// Goes on to printing the report.
    pub fn resume(self, hi: Highlight, kind: String) -> (r: Step<'a, H>)
        ensures
            self.state().react(Reply::Highlighted(hi@, kind@)) == Some(r@),
    {
        Step::Print(
            Print {
                context: self.context,
                stream: Stream::Stderr,
                lines: parse_error_text(&hi, kind.as_str()),
            },
        )
    }
}

/// Show the error as text, and reply with its description and the text.
pub struct Describe<'a, H: Host> {
    /// The context of the work.
    pub context: Rc<Context<H>>,
    /// The error.
    pub error: &'a Error<H>,
}

impl<'a, H: Host> Describe<'a, H> {
    /// The state of the work at this step.
    pub open spec fn state(self) -> State<H> {
        State::Waiting(*self.context, Request::Describe { error: *self.error })
    }

    /// Goes on to printing both.
    pub fn resume(self, description: String, text: String) -> (r: Step<'a, H>)
        ensures
            self.state().react(Reply::Described(description@, text@)) == Some(r@),
    {
        let mut line = joined(description.as_str(), ": ");
        line.append(text.as_str());
        print_line(self.context, Stream::Stderr, line)
    }
}

/// Show `value` as text, with names from the name store of the scope, and reply with the text.
pub struct DebugNames<'a, H: Host> {
    /// The context of the work.
    pub context: Rc<Context<H>>,
    /// The value.
    pub value: &'a Value<H>,
    /// Whether the text is to be printed.
    pub print: bool,
}

impl<'a, H: Host> DebugNames<'a, H> {
    /// The state of the work at this step.
    pub open spec fn state(self) -> State<H> {
        State::Waiting(
            *self.context,
            Request::DebugNames { value: *self.value, print: self.print },
        )
    }

    /// Ends with the text, or goes on to printing it.
    pub fn resume(self, text: String) -> (r: Step<'a, H>)
        ensures
            self.state().react(Reply::Shown(text@)) == Some(r@),
    {
        if self.print {
            print_line(self.context, Stream::Stdout, text)
        } else {
            Step::Done(Ok(Output::Text(text)))
        }
    }
}

/// Starts on printing one line.
fn print_line<'a, H: Host>(context: Rc<Context<H>>, stream: Stream, line: String) -> (r: Step<
    'a,
    H,
>)
    ensures
        r@ == State::printing(*context, stream, seq![line@]),
{
    let lines = vec![line];
    assert(contents(lines@) =~= seq![line@]);
    Step::Print(Print { context, stream, lines })
}

/// Print each of the `lines` to the stream, with a line end behind it. A line that cannot be
/// printed to the standard error output is passed over.
pub struct Print<H: Host> {
    /// The context of the work.
    pub context: Rc<Context<H>>,
    /// Where to print.
    pub stream: Stream,
    /// What to print.
    pub lines: Vec<String>,
}

impl<H: Host> Print<H> {
    /// The state of the work at this step.
    pub open spec fn state(self) -> State<H> {
        State::Waiting(
            *self.context,
            Request::Print { stream: self.stream, lines: contents(self.lines@) },
        )
    }

    /// Ends the work.
    pub fn resume<'a>(self) -> (r: Step<'a, H>)
        ensures
            self.state().react(Reply::Ack) == Some(r@),
    {
        Step::Done(Ok(Output::Unit))
    }
}

} // verus!
