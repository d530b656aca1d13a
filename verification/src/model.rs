//! The mathematical model of a session's work: the states that it passes through, what each
//! state asks of the engine, and how each reply leads to the next state.

use crate::context::Context;
use crate::host::{path_text, Error, ExecError, Host, IoError, IoMode, ParseError, Value};
use crate::text::{parse_error_lines, HighlightView};
use std::path::PathBuf;
use vstd::prelude::*;

verus! {

/// What is wanted of a source that holds one expression.
#[derive(Clone, Copy, Debug, PartialEq, Eq, Structural)]
pub enum ExprGoal {
    /// The expression.
    Parse,
    /// The code that it compiles to.
    Compile,
    /// The value that the code yields.
    Run,
}

/// What is wanted of a compiled program.
#[derive(Clone, Copy, Debug, PartialEq, Eq, Structural)]
pub enum ProgramUse {
    /// The code objects.
    Return,
    /// The value of the last code object.
    Run,
    /// That the code objects are executed, and then the `main` function if there is one.
    RunMain,
}

/// What is wanted of a source that holds a series of expressions.
#[derive(Clone, Copy, Debug, PartialEq, Eq, Structural)]
pub enum ProgramGoal {
    /// The expressions.
    Parse,
    /// The program that they compile to, for the given use.
    Compile(ProgramUse),
}

/// What is wanted of a source.
#[derive(Clone, Copy, Debug, PartialEq, Eq, Structural)]
pub enum Goal {
    /// It holds a single expression.
    Expr(ExprGoal),
    /// It holds a series of expressions.
    Program {
        /// Whether a first line that starts with `#!` is passed over.
        skip_shebang: bool,
        /// What is wanted of the expressions.
        goal: ProgramGoal,
    },
}

/// What follows the last code object of a program.
#[derive(Clone, Copy, Debug, PartialEq, Eq, Structural)]
pub enum Ending {
    /// Its value is the result.
    Value,
    /// The `main` function is called if there is one.
    Main,
}

/// What a looked-up value is for.
#[derive(Clone, Copy, Debug, PartialEq, Eq, Structural)]
pub enum Lookup {
    /// It is the result.
    Return,
    /// It is called without arguments if there is one.
    CallMain,
}

/// What becomes of the value that a function returns.
#[derive(Clone, Copy, Debug, PartialEq, Eq, Structural)]
pub enum Returned {
    /// It is the result.
    Keep,
    /// It is dropped.
    Discard,
}

/// A stream that text is printed to.
#[derive(Clone, Copy, Debug, PartialEq, Eq, Structural)]
pub enum Stream {
    /// The standard output.
    Stdout,
    /// The standard error output.
    Stderr,
}

/// What becomes of a compiled code object.
pub enum CompiledView<H: Host> {
    /// It is the result.
    Return,
    /// It is executed.
    Run,
    /// It joins the program.
    Collect {
        /// The expressions that are still to be compiled.
        rest: Seq<Value<H>>,
        /// The code objects so far.
        done: Seq<H::Code>,
        /// What the program is for.
        usage: ProgramUse,
    },
}

/// A thing that is shown with its names spelled out.
pub enum NamedView<H: Host> {
    /// A compile error.
    CompileError(H::CompileError),
    /// An execution error.
    ExecError(ExecError<H>),
    /// A traceback.
    Trace(H::Trace),
}

/// A result.
pub enum OutputView<H: Host> {
    /// Nothing.
    Unit,
    /// A value.
    Value(Value<H>),
    /// A value, if the scope has one.
    Found(Option<Value<H>>),
    /// A series of expressions.
    Exprs(Seq<Value<H>>),
    /// A code object.
    Code(H::Code),
    /// A series of code objects.
    Program(Seq<H::Code>),
    /// A text.
    Text(Seq<char>),
}

/// One thing for the engine to do.
pub enum Request<H: Host> {
    /// Open a file.
    OpenFile { path: PathBuf },
    /// Read the text of the open file.
    ReadFile { path: PathBuf },
    /// Add a source to the code map.
    AddSource { input: Seq<char>, path: Option<Seq<char>>, goal: Goal },
    /// Parse the one expression of a source.
    ParseSingleExpr { input: Seq<char>, offset: H::Offset, goal: ExprGoal },
    /// Parse all expressions of a source.
    ParseExprs { input: Seq<char>, offset: H::Offset, skip_shebang: bool, goal: ProgramGoal },
    /// Compile an expression.
    Compile { expr: Value<H>, next: CompiledView<H> },
    /// Execute a code object.
    Execute { code: H::Code, rest: Seq<H::Code>, ending: Ending },
    /// Intern a name.
    AddName { name: Seq<char>, args: Seq<Value<H>> },
    /// Look up the value of an interned name.
    GetValue { name: H::Name, args: Seq<Value<H>> },
    /// Look up a value by the text of its name.
    GetNamedValue { name: Seq<char>, lookup: Lookup },
    /// Call a function.
    CallFunction { value: Value<H>, args: Seq<Value<H>>, returned: Returned },
    /// Give a name a list of strings as its value.
    AddNamedValue { name: Seq<char>, strings: Seq<Seq<char>> },
    /// Drop all sources from the code map.
    ClearCodeMap,
    /// Show a thing with its names spelled out.
    DisplayNames { item: NamedView<H> },
    /// Show the place and the kind of a parse error.
    HighlightSpan { error: ParseError<H> },
    /// Show an error of another kind.
    Describe { error: Error<H> },
    /// Show a value with its names spelled out.
    DebugNames { value: Value<H>, print: bool },
    /// Print lines.
    Print { stream: Stream, lines: Seq<Seq<char>> },
}

/// A state of the work.
pub enum State<H: Host> {
    /// The session waits for the engine to do one thing in a context.
    Waiting(Context<H>, Request<H>),
    /// Nothing more to do.
    Done(Result<OutputView<H>, Error<H>>),
}

/// A reply of the engine.
pub enum Reply<H: Host> {
    /// A file was opened, or could not be.
    Opened(Result<(), std::io::Error>),
    /// The text of a file was read, or could not be.
    Read(Result<Seq<char>, std::io::Error>),
    /// Where a source starts in the code map.
    Offset(H::Offset),
    /// The one expression of a source.
    Expr(Result<Value<H>, Error<H>>),
    /// The expressions of a source.
    Exprs(Result<Seq<Value<H>>, Error<H>>),
    /// A compiled code object.
    Code(Result<H::Code, Error<H>>),
    /// The value of an executed code object.
    Executed(Result<Value<H>, Error<H>>),
    /// An interned name.
    Name(H::Name),
    /// A value, if the scope has one.
    Found(Option<Value<H>>),
    /// What a function returned.
    Called(Result<Value<H>, Error<H>>),
    /// What was shown.
    Shown(Seq<char>),
    /// The place of a parse error, and its kind as text.
    Highlighted(HighlightView, Seq<char>),
    /// The description of an error, and the error as text.
    Described(Seq<char>, Seq<char>),
    /// It was done.
    Ack,
}

/// The text that introduces a thing shown with its names.
pub open spec fn named_heading<H: Host>(item: NamedView<H>) -> Seq<char> {
    match item {
        NamedView::CompileError(_) => "compile error: "@,
        NamedView::ExecError(_) => "execution error: "@,
        NamedView::Trace(_) => "Traceback:\n\n"@,
    }
}

impl<H: Host> State<H> {
    /// The work has ended without an error.
    pub open spec fn ok(output: OutputView<H>) -> Self {
        State::Done(Ok(output))
    }

    /// The work has ended with an error.
    pub open spec fn fail(error: Error<H>) -> Self {
        State::Done(Err(error))
    }

    /// A file could not be opened or read.
    pub open spec fn io_failed(mode: IoMode, path: PathBuf, err: std::io::Error) -> Self {
        State::fail(Error::IoError(IoError { mode, path, err }))
    }

    /// Code objects are to be executed in order; `last` is the value so far.
    pub open spec fn executing(
        context: Context<H>,
        codes: Seq<H::Code>,
        last: Value<H>,
        ending: Ending,
    ) -> Self {
        if codes.len() > 0 {
            State::Waiting(
                context,
                Request::Execute { code: codes[0], rest: codes.drop_first(), ending },
            )
        } else {
            match ending {
                Ending::Value => State::ok(OutputView::Value(last)),
                Ending::Main => State::Waiting(
                    context,
                    Request::GetNamedValue { name: "main"@, lookup: Lookup::CallMain },
                ),
            }
        }
    }

    /// All expressions of a program have been compiled.
    pub open spec fn program_ready(
        context: Context<H>,
        codes: Seq<H::Code>,
        usage: ProgramUse,
    ) -> Self {
        match usage {
            ProgramUse::Return => State::ok(OutputView::Program(codes)),
            ProgramUse::Run => State::executing(context, codes, Value::Unit, Ending::Value),
            ProgramUse::RunMain => State::executing(context, codes, Value::Unit, Ending::Main),
        }
    }

    /// Expressions are to be compiled in order; `done` are the code objects so far.
    pub open spec fn compiling(
        context: Context<H>,
        exprs: Seq<Value<H>>,
        done: Seq<H::Code>,
        usage: ProgramUse,
    ) -> Self {
        if exprs.len() > 0 {
            State::Waiting(
                context,
                Request::Compile {
                    expr: exprs[0],
                    next: CompiledView::Collect { rest: exprs.drop_first(), done, usage },
                },
            )
        } else {
            State::program_ready(context, done, usage)
        }
    }

    /// What follows when a source has been placed in the code map.
    pub open spec fn parsing(
        context: Context<H>,
        input: Seq<char>,
        offset: H::Offset,
        goal: Goal,
    ) -> Self {
        State::Waiting(
            context,
            match goal {
                Goal::Expr(goal) => Request::ParseSingleExpr { input, offset, goal },
                Goal::Program { skip_shebang, goal } =>
                    Request::ParseExprs { input, offset, skip_shebang, goal },
            },
        )
    }

    /// What follows the parsing of a single expression.
    pub open spec fn expr_parsed(
        context: Context<H>,
        goal: ExprGoal,
        reply: Result<Value<H>, Error<H>>,
    ) -> Self {
        match reply {
            Err(e) => State::fail(e),
            Ok(expr) => match goal {
                ExprGoal::Parse => State::ok(OutputView::Value(expr)),
                ExprGoal::Compile => State::Waiting(
                    context,
                    Request::Compile { expr, next: CompiledView::Return },
                ),
                ExprGoal::Run => State::Waiting(
                    context,
                    Request::Compile { expr, next: CompiledView::Run },
                ),
            },
        }
    }

    /// What follows the parsing of a series of expressions.
    pub open spec fn exprs_parsed(
        context: Context<H>,
        goal: ProgramGoal,
        reply: Result<Seq<Value<H>>, Error<H>>,
    ) -> Self {
        match reply {
            Err(e) => State::fail(e),
            Ok(exprs) => match goal {
                ProgramGoal::Parse => State::ok(OutputView::Exprs(exprs)),
                ProgramGoal::Compile(usage) =>
                    State::compiling(context, exprs, Seq::empty(), usage),
            },
        }
    }

    /// What follows the compilation of an expression.
    pub open spec fn compiled(
        context: Context<H>,
        next: CompiledView<H>,
        reply: Result<H::Code, Error<H>>,
    ) -> Self {
        match reply {
            Err(e) => State::fail(e),
            Ok(code) => match next {
                CompiledView::Return => State::ok(OutputView::Code(code)),
                CompiledView::Run => State::Waiting(
                    context,
                    Request::Execute { code, rest: Seq::empty(), ending: Ending::Value },
                ),
                CompiledView::Collect { rest, done, usage } =>
                    State::compiling(context, rest, done.push(code), usage),
            },
        }
    }

    /// What follows the execution of a code object.
    pub open spec fn executed(
        context: Context<H>,
        rest: Seq<H::Code>,
        ending: Ending,
        reply: Result<Value<H>, Error<H>>,
    ) -> Self {
        match reply {
            Err(e) => State::fail(e),
            Ok(value) => State::executing(context, rest, value, ending),
        }
    }

    /// What follows a look-up by interned name, on the way to a call.
    pub open spec fn callee_found(
        context: Context<H>,
        name: H::Name,
        args: Seq<Value<H>>,
        found: Option<Value<H>>,
    ) -> Self {
        match found {
            Some(value) => State::Waiting(
                context,
                Request::CallFunction { value, args, returned: Returned::Keep },
            ),
            None => State::fail(Error::ExecError(ExecError::NameError(name))),
        }
    }

    /// What follows a look-up by the text of a name.
    pub open spec fn named_found(
        context: Context<H>,
        lookup: Lookup,
        found: Option<Value<H>>,
    ) -> Self {
        match lookup {
            Lookup::Return => State::ok(OutputView::Found(found)),
            Lookup::CallMain => match found {
                Some(value) => State::Waiting(
                    context,
                    Request::CallFunction {
                        value,
                        args: Seq::empty(),
                        returned: Returned::Discard,
                    },
                ),
                None => State::ok(OutputView::Unit),
            },
        }
    }

    /// What follows a function call.
    pub open spec fn called(returned: Returned, reply: Result<Value<H>, Error<H>>) -> Self {
        match reply {
            Err(e) => State::fail(e),
            Ok(value) => match returned {
                Returned::Keep => State::ok(OutputView::Value(value)),
                Returned::Discard => State::ok(OutputView::Unit),
            },
        }
    }

    /// Lines are to be printed.
    pub open spec fn printing(context: Context<H>, stream: Stream, lines: Seq<Seq<char>>) -> Self {
        State::Waiting(context, Request::Print { stream, lines })
    }

    /// What follows when a value has been shown.
    pub open spec fn value_shown(context: Context<H>, print: bool, text: Seq<char>) -> Self {
        if print {
            State::printing(context, Stream::Stdout, seq![text])
        } else {
            State::ok(OutputView::Text(text))
        }
    }

    /// The state that a reply leads to, if it is a reply to what this state asks for.
    pub open spec fn react(self, reply: Reply<H>) -> Option<Self> {
        match self {
            State::Waiting(context, request) => request.answered(context, reply),
            State::Done(_) => None,
        }
    }

    /// The state that a series of replies leads to, if each one is a reply to what the state
    /// before it asks for.
    pub open spec fn drive(self, replies: Seq<Reply<H>>) -> Option<Self>
        decreases replies.len(),
    {
        if replies.len() == 0 {
            Some(self)
        } else {
            match self.react(replies[0]) {
                Some(next) => next.drive(replies.drop_first()),
                None => None,
            }
        }
    }
}

impl<H: Host> Request<H> {
    /// The state that a reply to this request leads to, if it is a reply to it at all.
    pub open spec fn answered(self, context: Context<H>, reply: Reply<H>) -> Option<State<H>> {
        match (self, reply) {
            (Request::OpenFile { path }, Reply::Opened(reply)) => Some(
                match reply {
                    Ok(_) => State::Waiting(context, Request::ReadFile { path }),
                    Err(err) => State::io_failed(IoMode::Open, path, err),
                },
            ),
            (Request::ReadFile { path }, Reply::Read(reply)) => Some(
                match reply {
                    Ok(input) => State::Waiting(
                        context,
                        Request::AddSource {
                            input,
                            path: Some(path_text(path)),
                            goal: Goal::Program {
                                skip_shebang: true,
                                goal: ProgramGoal::Compile(ProgramUse::RunMain),
                            },
                        },
                    ),
                    Err(err) => State::io_failed(IoMode::Read, path, err),
                },
            ),
            (Request::AddSource { input, path: _, goal }, Reply::Offset(offset)) => Some(
                State::parsing(context, input, offset, goal),
            ),
            (Request::ParseSingleExpr { input: _, offset: _, goal }, Reply::Expr(reply)) => Some(
                State::expr_parsed(context, goal, reply),
            ),
            (
                Request::ParseExprs { input: _, offset: _, skip_shebang: _, goal },
                Reply::Exprs(reply),
            ) => Some(State::exprs_parsed(context, goal, reply)),
            (Request::Compile { expr: _, next }, Reply::Code(reply)) => Some(
                State::compiled(context, next, reply),
            ),
            (Request::Execute { code: _, rest, ending }, Reply::Executed(reply)) => Some(
                State::executed(context, rest, ending, reply),
            ),
            (Request::AddName { name: _, args }, Reply::Name(name)) => Some(
                State::Waiting(context, Request::GetValue { name, args }),
            ),
            (Request::GetValue { name, args }, Reply::Found(found)) => Some(
                State::callee_found(context, name, args, found),
            ),
            (Request::GetNamedValue { name: _, lookup }, Reply::Found(found)) => Some(
                State::named_found(context, lookup, found),
            ),
            (Request::CallFunction { value: _, args: _, returned }, Reply::Called(reply)) => Some(
                State::called(returned, reply),
            ),
            (Request::AddNamedValue { name: _, strings: _ }, Reply::Ack) => Some(
                State::ok(OutputView::Unit),
            ),
            (Request::ClearCodeMap, Reply::Ack) => Some(State::ok(OutputView::Unit)),
            (Request::DisplayNames { item }, Reply::Shown(text)) => Some(
                State::printing(context, Stream::Stderr, seq![named_heading(item) + text]),
            ),
            (Request::HighlightSpan { error: _ }, Reply::Highlighted(hi, kind)) => Some(
                State::printing(context, Stream::Stderr, parse_error_lines(hi, kind)),
            ),
            (Request::Describe { error: _ }, Reply::Described(description, text)) => Some(
                State::printing(context, Stream::Stderr, seq![description + ": "@ + text]),
            ),
            (Request::DebugNames { value: _, print }, Reply::Shown(text)) => Some(
                State::value_shown(context, print, text),
            ),
            (Request::Print { stream: _, lines: _ }, Reply::Ack) => Some(
                State::ok(OutputView::Unit),
            ),
            _ => None,
        }
    }
}

} // verus!
