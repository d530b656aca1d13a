//! What each reply leads to, what each step shows of itself, and how each operation starts, said
//! of the states and requests themselves.

use crate::builder::{Setting, Settings};
use crate::context::{
    Context, GlobalIo, GlobalScope, ModuleLoader, RestrictConfig, ScopePlan,
};
use crate::host::{path_text, Error, ExecError, Host, IoError, IoMode, ParseError, Value};
use crate::interpreter::{main_setup, on_code, on_error, on_expr, on_program, Interpreter};
use crate::model::{
    CompiledView, Ending, ExprGoal, Goal, Lookup, NamedView, OutputView, ProgramGoal, ProgramUse,
    Reply, Request, Returned, State, Stream,
};
use crate::setup::{
    AddScopeName, NewCodeMap, NewContext, NewModules, NewNames, NewScope, Part, Setup, SetupState,
};
use crate::step::{
    optional_text, AddName, AddNamedValue, AddSource, CallFunction, ClearCodeMap, Compile,
    Compiled, DebugNames, Describe, DisplayNames, Execute, GetNamedValue, GetValue, HighlightSpan,
    Named, OpenFile, Output, ParseExprs, ParseSingleExpr, Print, ReadFile, Step,
};
use crate::text::{contents, decimal, parse_error_lines, Highlight, HighlightView};
use std::path::PathBuf;
use vstd::prelude::*;

verus! {

/// No reply leaves a state as it is, one reply is reacted to, and a longer series is taken from
/// its front.
pub proof fn law_replies_are_taken_in_turn<H: Host>(
    s: State<H>,
    reply: Reply<H>,
    replies: Seq<Reply<H>>,
)
    ensures
        s.drive(Seq::empty()) == Some(s),
        s.drive(seq![reply]) == s.react(reply),
        replies.len() > 0 ==> s.drive(replies) == match s.react(replies[0]) {
            Some(next) => next.drive(replies.drop_first()),
            None => None,
        },
{
    reveal_with_fuel(State::drive, 2);
}

/// An opened file is read, and what was read is run as a program with a `main`, under the text
/// of the path and without a shebang line. A failure ends the work with the path, the attempt
/// and the failure itself.
pub proof fn law_file_replies<H: Host>(
    context: Context<H>,
    path: PathBuf,
    input: Seq<char>,
    err: std::io::Error,
)
    ensures
        State::<H>::Waiting(context, (Request::OpenFile { path })).react(Reply::Opened(Ok(())))
            == Some(State::<H>::Waiting(context, (Request::ReadFile { path }))),
        State::<H>::Waiting(context, (Request::OpenFile { path })).react(Reply::Opened(Err(err)))
            == Some(
            State::<H>::Done(Err(Error::IoError((IoError { mode: IoMode::Open, path, err })))),
        ),
        State::<H>::Waiting(context, (Request::ReadFile { path })).react(Reply::Read(Ok(input)))
            == Some(
            State::<H>::Waiting(
                context,
                (Request::AddSource {
                    input,
                    path: Some(path_text(path)),
                    goal: Goal::Program {
                        skip_shebang: true,
                        goal: ProgramGoal::Compile(ProgramUse::RunMain),
                    },
                }),
            ),
        ),
        State::<H>::Waiting(context, (Request::ReadFile { path })).react(Reply::Read(Err(err)))
            == Some(
            State::<H>::Done(Err(Error::IoError((IoError { mode: IoMode::Read, path, err })))),
        ),
{
}

/// A source that was added is parsed whole, at the offset that it was given, for the goal that
/// it was added for.
pub proof fn law_source_replies<H: Host>(
    context: Context<H>,
    input: Seq<char>,
    path: Option<Seq<char>>,
    offset: H::Offset,
    one: ExprGoal,
    skip_shebang: bool,
    many: ProgramGoal,
)
    ensures
        State::Waiting(
            context,
            (Request::AddSource { input, path, goal: Goal::Expr(one) }),
        ).react(Reply::Offset(offset)) == Some(
            State::Waiting(context, (Request::ParseSingleExpr { input, offset, goal: one })),
        ),
        State::Waiting(
            context,
            (Request::AddSource {
                input,
                path,
                goal: Goal::Program { skip_shebang, goal: many },
            }),
        ).react(Reply::Offset(offset)) == Some(
            State::Waiting(
                context,
                (Request::ParseExprs { input, offset, skip_shebang, goal: many }),
            ),
        ),
{
}

/// The error of a parser is the error of the work, whatever was wanted of the source. The
/// expression that a parser gives is the result, or is what is compiled.
pub proof fn law_expr_replies<H: Host>(
    context: Context<H>,
    input: Seq<char>,
    offset: H::Offset,
    goal: ExprGoal,
    expr: Value<H>,
    error: Error<H>,
)
    ensures
        State::Waiting(context, (Request::ParseSingleExpr { input, offset, goal })).react(
            Reply::Expr(Err(error)),
        ) == Some(State::<H>::Done(Err(error))),
        goal == ExprGoal::Parse ==> State::Waiting(
            context,
            (Request::ParseSingleExpr { input, offset, goal }),
        ).react(Reply::Expr(Ok(expr))) == Some(State::<H>::Done(Ok(OutputView::Value(expr)))),
        goal == ExprGoal::Compile ==> State::Waiting(
            context,
            (Request::ParseSingleExpr { input, offset, goal }),
        ).react(Reply::Expr(Ok(expr))) == Some(
            State::Waiting(context, (Request::Compile { expr, next: CompiledView::Return })),
        ),
        goal == ExprGoal::Run ==> State::Waiting(
            context,
            (Request::ParseSingleExpr { input, offset, goal }),
        ).react(Reply::Expr(Ok(expr))) == Some(
            State::Waiting(context, (Request::Compile { expr, next: CompiledView::Run })),
        ),
{
}

/// The error of a parser is the error of the work, whatever was wanted of the source. The
/// expressions that a parser gives are the result, or the first of them is compiled and the
/// others wait in their order. Without expressions there is nothing to compile or execute.
pub proof fn law_exprs_replies<H: Host>(
    context: Context<H>,
    input: Seq<char>,
    offset: H::Offset,
    skip_shebang: bool,
    goal: ProgramGoal,
    usage: ProgramUse,
    exprs: Seq<Value<H>>,
    error: Error<H>,
)
    ensures
        State::Waiting(context, (Request::ParseExprs { input, offset, skip_shebang, goal })).react(
            Reply::Exprs(Err(error)),
        ) == Some(State::<H>::Done(Err(error))),
        goal == ProgramGoal::Parse ==> State::Waiting(
            context,
            (Request::ParseExprs { input, offset, skip_shebang, goal }),
        ).react(Reply::Exprs(Ok(exprs))) == Some(
            State::<H>::Done(Ok(OutputView::Exprs(exprs))),
        ),
        goal == ProgramGoal::Compile(usage) && exprs.len() > 0 ==> State::Waiting(
            context,
            (Request::ParseExprs { input, offset, skip_shebang, goal }),
        ).react(Reply::Exprs(Ok(exprs))) == Some(
            State::Waiting(
                context,
                (Request::Compile {
                    expr: exprs[0],
                    next: CompiledView::Collect {
                        rest: exprs.drop_first(),
                        done: Seq::empty(),
                        usage,
                    },
                }),
            ),
        ),
        goal == ProgramGoal::Compile(ProgramUse::Return) && exprs.len() == 0 ==> State::Waiting(
            context,
            (Request::ParseExprs { input, offset, skip_shebang, goal }),
        ).react(Reply::Exprs(Ok(exprs))) == Some(
            State::<H>::Done(Ok(OutputView::Program(Seq::empty()))),
        ),
        goal == ProgramGoal::Compile(ProgramUse::Run) && exprs.len() == 0 ==> State::Waiting(
            context,
            (Request::ParseExprs { input, offset, skip_shebang, goal }),
        ).react(Reply::Exprs(Ok(exprs))) == Some(
            State::<H>::Done(Ok(OutputView::Value(Value::Unit))),
        ),
        goal == ProgramGoal::Compile(ProgramUse::RunMain) && exprs.len() == 0 ==> State::Waiting(
            context,
            (Request::ParseExprs { input, offset, skip_shebang, goal }),
        ).react(Reply::Exprs(Ok(exprs))) == Some(
            State::<H>::Waiting(
                context,
                (Request::GetNamedValue { name: "main"@, lookup: Lookup::CallMain }),
            ),
        ),
{
}

/// The error of the compiler is the error of the work. A code object is the result, is executed,
/// or joins the program behind those before it; the first of a complete program is executed
/// first, and the others wait in their order.
pub proof fn law_code_replies<H: Host>(
    context: Context<H>,
    expr: Value<H>,
    next: CompiledView<H>,
    rest: Seq<Value<H>>,
    done: Seq<H::Code>,
    usage: ProgramUse,
    code: H::Code,
    error: Error<H>,
)
    ensures
        State::Waiting(context, (Request::Compile { expr, next })).react(Reply::Code(Err(error)))
            == Some(State::<H>::Done(Err(error))),
        State::Waiting(context, (Request::Compile { expr, next: CompiledView::Return })).react(
            Reply::Code(Ok(code)),
        ) == Some(State::<H>::Done(Ok(OutputView::Code(code)))),
        State::Waiting(context, (Request::Compile { expr, next: CompiledView::Run })).react(
            Reply::Code(Ok(code)),
        ) == Some(
            State::<H>::Waiting(
                context,
                (Request::Execute { code, rest: Seq::empty(), ending: Ending::Value }),
            ),
        ),
        rest.len() > 0 ==> State::Waiting(
            context,
            (Request::Compile { expr, next: CompiledView::Collect { rest, done, usage } }),
        ).react(Reply::Code(Ok(code))) == Some(
            State::Waiting(
                context,
                (Request::Compile {
                    expr: rest[0],
                    next: CompiledView::Collect {
                        rest: rest.drop_first(),
                        done: done.push(code),
                        usage,
                    },
                }),
            ),
        ),
        rest.len() == 0 && usage == ProgramUse::Return ==> State::Waiting(
            context,
            (Request::Compile { expr, next: CompiledView::Collect { rest, done, usage } }),
        ).react(Reply::Code(Ok(code))) == Some(
            State::<H>::Done(Ok(OutputView::Program(done.push(code)))),
        ),
        rest.len() == 0 && usage == ProgramUse::Run ==> State::Waiting(
            context,
            (Request::Compile { expr, next: CompiledView::Collect { rest, done, usage } }),
        ).react(Reply::Code(Ok(code))) == Some(
            State::<H>::Waiting(
                context,
                (Request::Execute {
                    code: done.push(code)[0],
                    rest: done.push(code).drop_first(),
                    ending: Ending::Value,
                }),
            ),
        ),
        rest.len() == 0 && usage == ProgramUse::RunMain ==> State::Waiting(
            context,
            (Request::Compile { expr, next: CompiledView::Collect { rest, done, usage } }),
        ).react(Reply::Code(Ok(code))) == Some(
            State::<H>::Waiting(
                context,
                (Request::Execute {
                    code: done.push(code)[0],
                    rest: done.push(code).drop_first(),
                    ending: Ending::Main,
                }),
            ),
        ),
{
}

/// The error of a code object is the error of the work, whatever was to follow. After a value the
/// next code object is executed. After the last one its value is the result, or `main` is looked
/// for.
pub proof fn law_value_replies<H: Host>(
    context: Context<H>,
    code: H::Code,
    rest: Seq<H::Code>,
    ending: Ending,
    value: Value<H>,
    error: Error<H>,
    reply: Result<Value<H>, Error<H>>,
)
    ensures
        State::Waiting(context, (Request::Execute { code, rest, ending })).react(
            Reply::Executed(reply),
        ) == Some(State::executed(context, rest, ending, reply)),
        State::executed(context, rest, ending, Err(error)) == State::<H>::Done(Err(error)),
        rest.len() > 0 ==> State::executed(context, rest, ending, Ok(value)) == State::<
            H,
        >::Waiting(
            context,
            (Request::Execute { code: rest[0], rest: rest.drop_first(), ending }),
        ),
        rest.len() == 0 && ending == Ending::Value ==> State::executed(
            context,
            rest,
            ending,
            Ok(value),
        ) == State::<H>::Done(Ok(OutputView::Value(value))),
        rest.len() == 0 && ending == Ending::Main ==> State::executed(
            context,
            rest,
            ending,
            Ok(value),
        ) == State::<H>::Waiting(
            context,
            (Request::GetNamedValue { name: "main"@, lookup: Lookup::CallMain }),
        ),
{
}

/// A program starts with its first code object, the others waiting in their order. One without
/// code objects has the value so far as its result, or goes on to `main`.
pub proof fn law_program_starts_with_first_code<H: Host>(
    context: Context<H>,
    codes: Seq<H::Code>,
    last: Value<H>,
    ending: Ending,
)
    ensures
        codes.len() > 0 ==> State::executing(context, codes, last, ending) == State::<H>::Waiting(
            context,
            (Request::Execute { code: codes[0], rest: codes.drop_first(), ending }),
        ),
        codes.len() == 0 && ending == Ending::Value ==> State::executing(
            context,
            codes,
            last,
            ending,
        ) == State::<H>::Done(Ok(OutputView::Value(last))),
        codes.len() == 0 && ending == Ending::Main ==> State::executing(
            context,
            codes,
            last,
            ending,
        ) == State::<H>::Waiting(
            context,
            (Request::GetNamedValue { name: "main"@, lookup: Lookup::CallMain }),
        ),
{
}

/// An interned name is looked up, and its value is called with the arguments that were given; a
/// name without a value is an error that names it. A value looked up by text is the result, or is
/// called without arguments if there is one.
pub proof fn law_lookup_replies<H: Host>(
    context: Context<H>,
    text: Seq<char>,
    name: H::Name,
    args: Seq<Value<H>>,
    value: Value<H>,
    found: Option<Value<H>>,
)
    ensures
        State::Waiting(context, (Request::AddName { name: text, args })).react(Reply::Name(name))
            == Some(State::Waiting(context, (Request::GetValue { name, args }))),
        State::Waiting(context, (Request::GetValue { name, args })).react(
            Reply::Found(Some(value)),
        ) == Some(
            State::Waiting(
                context,
                (Request::CallFunction { value, args, returned: Returned::Keep }),
            ),
        ),
        State::Waiting(context, (Request::GetValue { name, args })).react(Reply::Found(None))
            == Some(State::<H>::Done(Err(Error::ExecError(ExecError::NameError(name))))),
        State::Waiting(
            context,
            (Request::GetNamedValue { name: text, lookup: Lookup::Return }),
        ).react(Reply::Found(found)) == Some(State::<H>::Done(Ok(OutputView::Found(found)))),
        State::Waiting(
            context,
            (Request::GetNamedValue { name: text, lookup: Lookup::CallMain }),
        ).react(Reply::Found(Some(value))) == Some(
            State::Waiting(
                context,
                (Request::CallFunction {
                    value,
                    args: Seq::empty(),
                    returned: Returned::Discard,
                }),
            ),
        ),
        State::<H>::Waiting(
            context,
            (Request::GetNamedValue { name: text, lookup: Lookup::CallMain }),
        ).react(Reply::Found(None)) == Some(State::<H>::Done(Ok(OutputView::Unit))),
{
}

/// The error of a function is the error of the call, whatever the error and whatever becomes of
/// the value. The value that a function returns is the result of the call where it is kept.
pub proof fn law_call_replies<H: Host>(
    context: Context<H>,
    value: Value<H>,
    args: Seq<Value<H>>,
    returned: Returned,
    result: Value<H>,
    error: Error<H>,
    reply: Result<Value<H>, Error<H>>,
)
    ensures
        State::Waiting(context, (Request::CallFunction { value, args, returned })).react(
            Reply::Called(reply),
        ) == Some(State::called(returned, reply)),
        State::called(returned, Err(error)) == State::<H>::Done(Err(error)),
        State::called(Returned::Keep, Ok(result)) == State::<H>::Done(
            Ok(OutputView::Value(result)),
        ),
        State::called(Returned::Discard, Ok(result)) == State::<H>::Done(Ok(OutputView::Unit)),
{
}

/// Each thing that is shown is printed under its own heading, as one line. A parse error is
/// printed as its report. A value is printed as it is, or is the result.
pub proof fn law_shown_replies<H: Host>(
    context: Context<H>,
    not_compiled: H::CompileError,
    not_executed: ExecError<H>,
    trace: H::Trace,
    not_parsed: ParseError<H>,
    error: Error<H>,
    value: Value<H>,
    text: Seq<char>,
    description: Seq<char>,
    hi: HighlightView,
)
    ensures
        State::<H>::Waiting(
            context,
            (Request::DisplayNames { item: NamedView::CompileError(not_compiled) }),
        ).react(Reply::Shown(text)) == Some(
            State::<H>::Waiting(
                context,
                (Request::Print {
                    stream: Stream::Stderr,
                    lines: seq!["compile error: "@ + text],
                }),
            ),
        ),
        State::<H>::Waiting(
            context,
            (Request::DisplayNames { item: NamedView::ExecError(not_executed) }),
        ).react(Reply::Shown(text)) == Some(
            State::<H>::Waiting(
                context,
                (Request::Print {
                    stream: Stream::Stderr,
                    lines: seq!["execution error: "@ + text],
                }),
            ),
        ),
        State::<H>::Waiting(
            context,
            (Request::DisplayNames { item: NamedView::Trace(trace) }),
        ).react(Reply::Shown(text)) == Some(
            State::<H>::Waiting(
                context,
                (Request::Print {
                    stream: Stream::Stderr,
                    lines: seq!["Traceback:\n\n"@ + text],
                }),
            ),
        ),
        State::<H>::Waiting(context, (Request::HighlightSpan { error: not_parsed })).react(
            Reply::Highlighted(hi, text),
        ) == Some(
            State::<H>::Waiting(
                context,
                (Request::Print {
                    stream: Stream::Stderr,
                    lines: parse_error_lines(hi, text),
                }),
            ),
        ),
        State::<H>::Waiting(context, (Request::Describe { error })).react(
            Reply::Described(description, text),
        ) == Some(
            State::<H>::Waiting(
                context,
                (Request::Print {
                    stream: Stream::Stderr,
                    lines: seq![description + ": "@ + text],
                }),
            ),
        ),
        State::<H>::Waiting(context, (Request::DebugNames { value, print: true })).react(
            Reply::Shown(text),
        ) == Some(
            State::<H>::Waiting(
                context,
                (Request::Print { stream: Stream::Stdout, lines: seq![text] }),
            ),
        ),
        State::<H>::Waiting(context, (Request::DebugNames { value, print: false })).react(
            Reply::Shown(text),
        ) == Some(State::<H>::Done(Ok(OutputView::Text(text)))),
{
}

/// What needs no answer ends the work when it is done.
pub proof fn law_acknowledged_requests_end<H: Host>(
    context: Context<H>,
    name: Seq<char>,
    strings: Seq<Seq<char>>,
    stream: Stream,
    lines: Seq<Seq<char>>,
)
    ensures
        State::<H>::Waiting(context, (Request::AddNamedValue { name, strings })).react(Reply::Ack)
            == Some(State::<H>::Done(Ok(OutputView::Unit))),
        State::<H>::Waiting(context, Request::ClearCodeMap).react(Reply::Ack) == Some(
            State::<H>::Done(Ok(OutputView::Unit)),
        ),
        State::<H>::Waiting(context, (Request::Print { stream, lines })).react(Reply::Ack) == Some(
            State::<H>::Done(Ok(OutputView::Unit)),
        ),
{
}

/// Work on a source starts by adding the very source under the very path. Work on a code object
/// starts by executing it. Work on showing an error starts with what its kind of error is shown
/// by.
pub proof fn law_work_starts_with_its_input<H: Host>(
    context: Context<H>,
    input: Seq<char>,
    path: Option<Seq<char>>,
    one: ExprGoal,
    skip_shebang: bool,
    many: ProgramGoal,
    code: H::Code,
    not_compiled: H::CompileError,
    not_executed: ExecError<H>,
    not_parsed: ParseError<H>,
    io_error: IoError,
    other: H::Error,
)
    ensures
        on_expr(context, input, path, one) == State::<H>::Waiting(
            context,
            (Request::AddSource { input, path, goal: Goal::Expr(one) }),
        ),
        on_program(context, input, path, skip_shebang, many) == State::<H>::Waiting(
            context,
            (Request::AddSource {
                input,
                path,
                goal: Goal::Program { skip_shebang, goal: many },
            }),
        ),
        on_code(context, code) == State::<H>::Waiting(
            context,
            (Request::Execute { code, rest: Seq::empty(), ending: Ending::Value }),
        ),
        on_error(context, Error::CompileError(not_compiled)) == State::<H>::Waiting(
            context,
            (Request::DisplayNames { item: NamedView::CompileError(not_compiled) }),
        ),
        on_error(context, Error::ExecError(not_executed)) == State::<H>::Waiting(
            context,
            (Request::DisplayNames { item: NamedView::ExecError(not_executed) }),
        ),
        on_error(context, Error::ParseError(not_parsed)) == State::<H>::Waiting(
            context,
            (Request::HighlightSpan { error: not_parsed }),
        ),
        on_error(context, Error::IoError(io_error)) == State::<H>::Waiting(
            context,
            (Request::Describe { error: Error::IoError(io_error) }),
        ),
        on_error(context, Error::Other(other)) == State::<H>::Waiting(
            context,
            (Request::Describe { error: Error::Other(other) }),
        ),
{
}

/// A step for a file or a source asks for that very file or source, in its own context.
pub proof fn law_source_steps_show_themselves<'a, H: Host>(
    open: OpenFile<H>,
    read: ReadFile<H>,
    add: AddSource<H>,
    one: ParseSingleExpr<H>,
    many: ParseExprs<H>,
)
    ensures
        open.state() == State::<H>::Waiting(*open.context, (Request::OpenFile { path: open.path })),
        read.state() == State::<H>::Waiting(*read.context, (Request::ReadFile { path: read.path })),
        add.path is Some ==> add.state() == State::<H>::Waiting(
            *add.context,
            (Request::AddSource {
                input: add.input@,
                path: Some(add.path->0@),
                goal: add.goal,
            }),
        ),
        add.path is None ==> add.state() == State::<H>::Waiting(
            *add.context,
            (Request::AddSource { input: add.input@, path: None, goal: add.goal }),
        ),
        one.state() == State::<H>::Waiting(
            *one.context,
            (Request::ParseSingleExpr { input: one.input@, offset: one.offset, goal: one.goal }),
        ),
        many.state() == State::<H>::Waiting(
            *many.context,
            (Request::ParseExprs {
                input: many.input@,
                offset: many.offset,
                skip_shebang: many.skip_shebang,
                goal: many.goal,
            }),
        ),
        Step::<'a, H>::OpenFile(open)@ == open.state(),
        Step::<'a, H>::ReadFile(read)@ == read.state(),
        Step::<'a, H>::AddSource(add)@ == add.state(),
        Step::<'a, H>::ParseSingleExpr(one)@ == one.state(),
        Step::<'a, H>::ParseExprs(many)@ == many.state(),
{
}

/// A step for code asks for that very expression, code object or call, in its own context, and
/// says in order what is left.
pub proof fn law_code_steps_show_themselves<'a, H: Host>(
    compile: Compile<H>,
    execute: Execute<H>,
    call: CallFunction<H>,
)
    ensures
        compile.state() == State::<H>::Waiting(
            *compile.context,
            (Request::Compile { expr: compile.expr, next: compile.next@ }),
        ),
        compile.next is Return ==> compile.next@ == CompiledView::<H>::Return,
        compile.next is Run ==> compile.next@ == CompiledView::<H>::Run,
        compile.next matches Compiled::Collect { rest, done, usage } ==> compile.next@ == (
        CompiledView::<H>::Collect { rest: rest@, done: done@, usage }),
        execute.state() == State::<H>::Waiting(
            *execute.next.context,
            (Request::Execute {
                code: *execute.code,
                rest: execute.next.rest@,
                ending: execute.next.ending,
            }),
        ),
        call.state() == State::<H>::Waiting(
            *call.next.context,
            (Request::CallFunction {
                value: call.value,
                args: call.args@,
                returned: call.next.returned,
            }),
        ),
        Step::<'a, H>::Compile(compile)@ == compile.state(),
        Step::<'a, H>::Execute(execute)@ == execute.state(),
        Step::<'a, H>::CallFunction(call)@ == call.state(),
{
}

/// A step for names asks for that very name, in its own context.
pub proof fn law_name_steps_show_themselves<'a, H: Host>(
    add: AddName<H>,
    get: GetValue<H>,
    named: GetNamedValue<H>,
    define: AddNamedValue<H>,
    clear: ClearCodeMap<H>,
)
    ensures
        add.state() == State::<H>::Waiting(
            *add.context,
            (Request::AddName { name: add.name@, args: add.args@ }),
        ),
        get.state() == State::<H>::Waiting(
            *get.context,
            (Request::GetValue { name: get.name, args: get.args@ }),
        ),
        named.state() == State::<H>::Waiting(
            *named.context,
            (Request::GetNamedValue { name: named.name@, lookup: named.lookup }),
        ),
        define.state() == State::<H>::Waiting(
            *define.context,
            (Request::AddNamedValue {
                name: define.name@,
                strings: define.strings@.map_values(|s: String| s@),
            }),
        ),
        clear.state() == State::<H>::Waiting(*clear.context, Request::ClearCodeMap),
        Step::<'a, H>::AddName(add)@ == add.state(),
        Step::<'a, H>::GetValue(get)@ == get.state(),
        Step::<'a, H>::GetNamedValue(named)@ == named.state(),
        Step::<'a, H>::AddNamedValue(define)@ == define.state(),
        Step::<'a, H>::ClearCodeMap(clear)@ == clear.state(),
{
    assert(contents(define.strings@) =~= define.strings@.map_values(|s: String| s@));
}

/// A step for showing asks for that very thing, in its own context.
pub proof fn law_showing_steps_show_themselves<'a, H: Host>(
    names: DisplayNames<'a, H>,
    span: HighlightSpan<'a, H>,
    describe: Describe<'a, H>,
    debug: DebugNames<'a, H>,
    print: Print<H>,
)
    ensures
        names.state() == State::<H>::Waiting(
            *names.context,
            (Request::DisplayNames { item: names.item@ }),
        ),
        names.item matches Named::CompileError(e) ==> names.item@ == NamedView::<
            H,
        >::CompileError(*e),
        names.item matches Named::ExecError(e) ==> names.item@ == NamedView::<H>::ExecError(*e),
        names.item matches Named::Trace(t) ==> names.item@ == NamedView::<H>::Trace(*t),
        span.state() == State::<H>::Waiting(
            *span.context,
            (Request::HighlightSpan { error: *span.error }),
        ),
        describe.state() == State::<H>::Waiting(
            *describe.context,
            (Request::Describe { error: *describe.error }),
        ),
        debug.state() == State::<H>::Waiting(
            *debug.context,
            (Request::DebugNames { value: *debug.value, print: debug.print }),
        ),
        print.state() == State::<H>::Waiting(
            *print.context,
            (Request::Print {
                stream: print.stream,
                lines: print.lines@.map_values(|s: String| s@),
            }),
        ),
        Step::<'a, H>::DisplayNames(names)@ == names.state(),
        Step::<'a, H>::HighlightSpan(span)@ == span.state(),
        Step::<'a, H>::Describe(describe)@ == describe.state(),
        Step::<'a, H>::DebugNames(debug)@ == debug.state(),
        Step::<'a, H>::Print(print)@ == print.state(),
{
    assert(contents(print.lines@) =~= print.lines@.map_values(|s: String| s@));
}

/// Finished work shows its very result or its very error.
pub proof fn law_results_show_themselves<'a, H: Host>(
    value: Value<H>,
    found: Option<Value<H>>,
    exprs: Vec<Value<H>>,
    code: H::Code,
    codes: Vec<H::Code>,
    text: String,
    error: Error<H>,
)
    ensures
        Step::<'a, H>::Done(Err(error))@ == State::<H>::Done(Err(error)),
        Step::<'a, H>::Done(Ok(Output::Unit))@ == State::<H>::Done(Ok(OutputView::Unit)),
        Step::<'a, H>::Done(Ok(Output::Value(value)))@ == State::<H>::Done(
            Ok(OutputView::Value(value)),
        ),
        Step::<'a, H>::Done(Ok(Output::Found(found)))@ == State::<H>::Done(
            Ok(OutputView::Found(found)),
        ),
        Step::<'a, H>::Done(Ok(Output::Exprs(exprs)))@ == State::<H>::Done(
            Ok(OutputView::Exprs(exprs@)),
        ),
        Step::<'a, H>::Done(Ok(Output::Code(code)))@ == State::<H>::Done(
            Ok(OutputView::Code(code)),
        ),
        Step::<'a, H>::Done(Ok(Output::Program(codes)))@ == State::<H>::Done(
            Ok(OutputView::Program(codes@)),
        ),
        Step::<'a, H>::Done(Ok(Output::Text(text)))@ == State::<H>::Done(
            Ok(OutputView::Text(text@)),
        ),
{
}

/// An optional text is there when the string is, and holds what the string holds. A list of
/// texts holds, place by place, what the strings hold.
pub proof fn law_texts_hold_their_strings(text: Option<String>, strings: Seq<String>)
    ensures
        optional_text(text) is Some <==> text is Some,
        text is Some ==> optional_text(text) == Some(text->0@),
        contents(strings).len() == strings.len(),
        forall|i: int|
            0 <= i < strings.len() ==> #[trigger] contents(strings)[i] == strings[i]@,
{
}

/// A place shows its very file, line, column, source and marks.
pub proof fn law_highlight_shows_itself(hi: Highlight)
    ensures
        hi@.filename is Some <==> hi.filename is Some,
        hi.filename is Some ==> hi@.filename == Some(hi.filename->0@),
        hi@.line == hi.line,
        hi@.col == hi.col,
        hi@.source == hi.source@,
        hi@.highlight == hi.highlight@,
{
}

/// The report of a parse error names the file, or `<input>` where there is none, then the line,
/// the column and the kind. The source and its marks follow, each indented by four spaces.
pub proof fn law_parse_error_report(
    name: Seq<char>,
    line: nat,
    col: nat,
    source: Seq<char>,
    highlight: Seq<char>,
    kind: Seq<char>,
)
    ensures
        parse_error_lines(
            (HighlightView { filename: Some(name), line, col, source, highlight }),
            kind,
        ) == seq![
            name + ":"@ + decimal(line) + ":"@ + decimal(col) + ":parse error: "@ + kind,
            "    "@ + source,
            "    "@ + highlight,
        ],
        parse_error_lines(
            (HighlightView { filename: None, line, col, source, highlight }),
            kind,
        ) == seq![
            "<input>"@ + ":"@ + decimal(line) + ":"@ + decimal(col) + ":parse error: "@ + kind,
            "    "@ + source,
            "    "@ + highlight,
        ],
{
}

/// A number below ten is written as the one character that lies that far behind `0`. A digit
/// written behind a number multiplies it by ten and adds itself.
pub proof fn law_decimal_notation(n: nat, d: nat)
    requires
        d < 10,
    ensures
        decimal(d).len() == 1,
        decimal(d)[0] as int == '0' as int + d,
        n > 0 ==> decimal(n * 10 + d) == decimal(n) + decimal(d),
{
    if n > 0 {
        let m: nat = n * 10 + d;
        assert(m / 10 == n && m % 10 == d);
        assert(decimal(m) =~= decimal(n) + decimal(d));
    }
}

/// Every number is written differently.
pub proof fn law_decimal_is_unambiguous(m: nat, n: nat)
    requires
        decimal(m) == decimal(n),
    ensures
        m == n,
    decreases m,
{
    lemma_decimal_length(m);
    lemma_decimal_length(n);
    let dm: nat = m % 10;
    let dn: nat = n % 10;
    law_decimal_notation(0, dm);
    law_decimal_notation(0, dn);
    assert(decimal(m).last() == decimal(dm)[0]);
    assert(decimal(n).last() == decimal(dn)[0]);
    assert(dm == dn);
    if m >= 10 && n >= 10 {
        assert(decimal(m).drop_last() =~= decimal(m / 10));
        assert(decimal(n).drop_last() =~= decimal(n / 10));
        law_decimal_is_unambiguous(m / 10, n / 10);
    }
}

proof fn lemma_decimal_length(n: nat)
    ensures
        decimal(n).len() >= 1,
        n >= 10 ==> decimal(n).len() >= 2,
    decreases n,
{
    if n >= 10 {
        lemma_decimal_length(n / 10);
    }
}

/// Each part that the engine makes is kept beside those made before it, and nothing else changes.
pub proof fn law_setup_replies<H: Host>(
    plan: ScopePlan<H>,
    restrict: RestrictConfig<H>,
    names: H::Names,
    name: H::Name,
    codemap: H::CodeMap,
    modules: H::Modules,
    loader: ModuleLoader<H>,
    io: GlobalIo<H>,
    global: GlobalScope<H>,
    scope: H::Scope,
    handle: H::Context,
)
    ensures
        (SetupState::NewNames { plan, restrict }).made(Part::Names(names)) == Some(
            (SetupState::AddScopeName { names, plan, restrict }),
        ),
        (SetupState::AddScopeName { names, plan, restrict }).made(Part::Name(name)) == Some(
            (SetupState::NewCodeMap { name, names, loader: plan.loader, io: plan.io, restrict }),
        ),
        (SetupState::NewCodeMap { name, names, loader, io, restrict }).made(
            Part::CodeMap(codemap),
        ) == Some((SetupState::NewModules { name, names, codemap, loader, io, restrict })),
        (SetupState::NewModules { name, names, codemap, loader, io, restrict }).made(
            Part::Modules(modules),
        ) == Some(
            (SetupState::NewScope {
                global: GlobalScope { name, names, codemap, modules, io },
                restrict,
            }),
        ),
        (SetupState::NewScope { global, restrict }).made(Part::Scope(scope)) == Some(
            (SetupState::NewContext { scope, restrict }),
        ),
        (SetupState::NewContext { scope, restrict }).made(Part::Context(handle)) == Some(
            SetupState::<H>::Ready((Context { scope, handle })),
        ),
{
}

/// Parts are taken one at a time, from the front.
pub proof fn law_parts_are_taken_in_turn<H: Host>(s: SetupState<H>, parts: Seq<Part<H>>)
    ensures
        s.made_all(Seq::empty()) == Some(s),
        parts.len() > 0 ==> s.made_all(parts) == match s.made(parts[0]) {
            Some(next) => next.made_all(parts.drop_first()),
            None => None,
        },
{
}

/// A step of the setup asks for one thing, with the very parts and settings that it holds.
pub proof fn law_setup_steps_show_themselves<H: Host>(
    names: NewNames<H>,
    name: AddScopeName<H>,
    codemap: NewCodeMap<H>,
    modules: NewModules<H>,
    scope: NewScope<H>,
    context: NewContext<H>,
    interpreter: Interpreter<H>,
)
    ensures
        Setup::NewNames(names)@ == names.state(),
        names.state() == (SetupState::NewNames { plan: names.plan, restrict: names.restrict }),
        Setup::AddScopeName(name)@ == name.state(),
        name.state() == (SetupState::AddScopeName {
            names: name.names,
            plan: name.plan,
            restrict: name.restrict,
        }),
        Setup::NewCodeMap(codemap)@ == codemap.state(),
        codemap.state() == (SetupState::NewCodeMap {
            name: codemap.name,
            names: codemap.names,
            loader: codemap.loader,
            io: codemap.io,
            restrict: codemap.restrict,
        }),
        Setup::NewModules(modules)@ == modules.state(),
        modules.state() == (SetupState::NewModules {
            name: modules.next.name,
            names: modules.next.names,
            codemap: modules.next.codemap,
            loader: modules.loader,
            io: modules.next.io,
            restrict: modules.next.restrict,
        }),
        Setup::NewScope(scope)@ == scope.state(),
        scope.state() == (SetupState::NewScope {
            global: scope.global,
            restrict: scope.next.restrict,
        }),
        Setup::NewContext(context)@ == context.state(),
        context.state() == (SetupState::NewContext {
            scope: context.next.scope,
            restrict: context.restrict,
        }),
        Setup::Ready(interpreter)@ == SetupState::<H>::Ready(interpreter@),
{
}

/// Each setting of a builder is used for itself alone, whatever else is set.
///
/// A context is used as it is. Without one, the limits are those that were set, or none. With a
/// scope, a context is made for that scope. Without one, the scope is planned with the name that
/// was set, or `main`; with the handles that were set, or the standard ones; and with the loader
/// that was set, or else one for the search paths that were set, or else the built-in one.
pub proof fn law_each_setting_is_used_for_itself<H: Host>(settings: Settings<H>)
    ensures
        settings.context matches Some(context) ==> settings.setup() == SetupState::Ready(context),
        settings.context is None ==> (match settings.setup() {
            SetupState::NewNames { plan, restrict } => {
                &&& settings.scope is None
                &&& settings.restrict matches Some(limits) ==> restrict == limits
                &&& settings.restrict is None ==> restrict is Permissive
                &&& settings.name matches Some(name) ==> plan.name == name
                &&& settings.name is None ==> plan.name == "main"
                &&& settings.io matches Some(io) ==> plan.io == io
                &&& settings.io is None ==> plan.io is Default
                &&& settings.module_loader matches Some(loader) ==> plan.loader == loader
                &&& settings.module_loader is None && settings.search_paths is Some ==> plan.loader
                    == ModuleLoader::<H>::BuiltinThenFiles(settings.search_paths->0)
                &&& settings.module_loader is None && settings.search_paths is None
                    ==> plan.loader is Builtin
            },
            SetupState::NewContext { scope, restrict } => {
                &&& settings.scope == Some(scope)
                &&& settings.restrict matches Some(limits) ==> restrict == limits
                &&& settings.restrict is None ==> restrict is Permissive
            },
            _ => false,
        }),
{
}

/// Nothing is set on a new builder, and each constructor of an interpreter plans a scope named
/// `main` with its own loader, the standard handles and no limits.
pub proof fn law_defaults<H: Host>(loader: ModuleLoader<H>)
    ensures
        Settings::<H>::none() == (Settings::<H> {
            name: None,
            context: None,
            scope: None,
            restrict: None,
            io: None,
            module_loader: None,
            search_paths: None,
        }),
        main_setup(loader) == (SetupState::NewNames {
            plan: ScopePlan { name: "main", loader, io: GlobalIo::Default },
            restrict: RestrictConfig::Permissive,
        }),
{
}

/// Each parameter is refused exactly where one that it excludes has been set.
pub proof fn law_accepted_settings<H: Host>(settings: Settings<H>)
    ensures
        settings.accepts(Setting::Name) <==> settings.context is None && settings.scope is None,
        settings.accepts(Setting::Context) <==> settings.name is None && settings.scope is None
            && settings.restrict is None && settings.module_loader is None
            && settings.search_paths is None,
        settings.accepts(Setting::Scope) <==> settings.name is None && settings.context is None
            && settings.module_loader is None && settings.search_paths is None,
        settings.accepts(Setting::Restrict) <==> settings.context is None && settings.scope is None
            && settings.module_loader is None && settings.search_paths is None,
        settings.accepts(Setting::Io) <==> settings.context is None && settings.scope is None,
        settings.accepts(Setting::ModuleLoader) <==> settings.context is None
            && settings.scope is None && settings.search_paths is None,
        settings.accepts(Setting::SearchPaths) <==> settings.context is None
            && settings.scope is None && settings.module_loader is None,
{
    let a = Setting::Name.excluded();
    let b = Setting::Context.excluded();
    let c = Setting::Scope.excluded();
    let d = Setting::Restrict.excluded();
    let e = Setting::Io.excluded();
    let f = Setting::ModuleLoader.excluded();
    let g = Setting::SearchPaths.excluded();
    assert(settings.has(a[0]) || settings.has(a[1]) ==> !settings.accepts(Setting::Name));
    assert(settings.has(b[0]) || settings.has(b[1]) || settings.has(b[2]) || settings.has(b[3])
        || settings.has(b[4]) ==> !settings.accepts(Setting::Context));
    assert(settings.has(c[0]) || settings.has(c[1]) || settings.has(c[2]) || settings.has(c[3])
        ==> !settings.accepts(Setting::Scope));
    assert(settings.has(d[0]) || settings.has(d[1]) || settings.has(d[2]) || settings.has(d[3])
        ==> !settings.accepts(Setting::Restrict));
    assert(settings.has(e[0]) || settings.has(e[1]) ==> !settings.accepts(Setting::Io));
    assert(settings.has(f[0]) || settings.has(f[1]) || settings.has(f[2]) ==> !settings.accepts(
        Setting::ModuleLoader,
    ));
    assert(settings.has(g[0]) || settings.has(g[1]) || settings.has(g[2]) ==> !settings.accepts(
        Setting::SearchPaths,
    ));
}

/// A conflict is looked for among these parameters, in this order.
pub proof fn law_conflicts_are_found_in_order()
    ensures
        Setting::Name.excluded() == seq![Setting::Context, Setting::Scope],
        Setting::Context.excluded() == seq![
            Setting::Name,
            Setting::Scope,
            Setting::Restrict,
            Setting::ModuleLoader,
            Setting::SearchPaths,
        ],
        Setting::Scope.excluded() == seq![
            Setting::Name,
            Setting::Context,
            Setting::ModuleLoader,
            Setting::SearchPaths,
        ],
        Setting::Restrict.excluded() == seq![
            Setting::Context,
            Setting::Scope,
            Setting::ModuleLoader,
            Setting::SearchPaths,
        ],
        Setting::Io.excluded() == seq![Setting::Context, Setting::Scope],
        Setting::ModuleLoader.excluded() == seq![
            Setting::Context,
            Setting::Scope,
            Setting::SearchPaths,
        ],
        Setting::SearchPaths.excluded() == seq![
            Setting::Context,
            Setting::Scope,
            Setting::ModuleLoader,
        ],
{
}

/// A parameter has been set when there is a value for it, and is named after its method.
pub proof fn law_settings_are_told_apart<H: Host>(settings: Settings<H>)
    ensures
        settings.has(Setting::Name) <==> settings.name is Some,
        settings.has(Setting::Context) <==> settings.context is Some,
        settings.has(Setting::Scope) <==> settings.scope is Some,
        settings.has(Setting::Restrict) <==> settings.restrict is Some,
        settings.has(Setting::Io) <==> settings.io is Some,
        settings.has(Setting::ModuleLoader) <==> settings.module_loader is Some,
        settings.has(Setting::SearchPaths) <==> settings.search_paths is Some,
        Setting::Name.method_name() == "name"@,
        Setting::Context.method_name() == "context"@,
        Setting::Scope.method_name() == "scope"@,
        Setting::Restrict.method_name() == "restrict"@,
        Setting::Io.method_name() == "io"@,
        Setting::ModuleLoader.method_name() == "module_loader"@,
        Setting::SearchPaths.method_name() == "search_paths"@,
{
}

} // verus!
