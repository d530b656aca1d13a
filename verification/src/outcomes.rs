//! What each operation asks for in turn and ends with, from its first request to its result.

use crate::builder::Settings;
use crate::context::{Context, GlobalIo, GlobalScope, ModuleLoader, RestrictConfig};
use crate::host::{path_text, Error, ExecError, Host, IoError, IoMode, ParseError, Value};
use crate::interpreter::{on_code, on_error, on_expr, on_program};
use crate::laws::{
    codes_of, law_program_compiles_in_order, law_program_executes_in_order, law_work_in_parts,
    lemma_two_replies, values_of,
};
use crate::model::{
    CompiledView, Ending, ExprGoal, Goal, Lookup, NamedView, OutputView, ProgramGoal, ProgramUse,
    Reply, Request, Returned, State, Stream,
};
use crate::setup::{Part, SetupState};
use crate::text::{decimal, HighlightView};
use std::path::PathBuf;
use vstd::prelude::*;

verus! {

/// A source that does not parse as one expression ends the work with the parser's error, whatever
/// the error and whatever was wanted of the source. Parsing one that does results in the very
/// expression.
pub proof fn law_single_expr_parses_or_fails<H: Host>(
    context: Context<H>,
    input: Seq<char>,
    path: Option<Seq<char>>,
    goal: ExprGoal,
    offset: H::Offset,
    expr: Value<H>,
    error: Error<H>,
)
    ensures
        on_expr(context, input, path, goal).drive(
            seq![Reply::Offset(offset), Reply::Expr(Err(error))],
        ) == Some(State::<H>::Done(Err(error))),
        on_expr(context, input, path, ExprGoal::Parse).drive(
            seq![Reply::Offset(offset), Reply::Expr(Ok(expr))],
        ) == Some(State::<H>::Done(Ok(OutputView::Value(expr)))),
{
    reveal_with_fuel(State::drive, 3);
}

/// A single expression is compiled as it was parsed. Compiling it results in the very code
/// object, and running it in the value of that code object. An error of either stage is the error
/// of the work.
pub proof fn law_single_expr_compiles_and_runs<H: Host>(
    context: Context<H>,
    input: Seq<char>,
    path: Option<Seq<char>>,
    goal: ExprGoal,
    offset: H::Offset,
    expr: Value<H>,
    code: H::Code,
    value: Value<H>,
    error: Error<H>,
)
    requires
        goal != ExprGoal::Parse,
    ensures
        ({
            let start = on_expr(context, input, path, goal);
            let parsed = seq![Reply::<H>::Offset(offset), Reply::Expr(Ok(expr))];
            &&& start.drive(parsed) matches Some(
                State::Waiting(at, Request::Compile { expr: compiled, next: _ }),
            ) && at == context && compiled == expr
            &&& start.drive(parsed + seq![Reply::Code(Err(error))]) == Some(
                State::<H>::Done(Err(error)),
            )
            &&& goal == ExprGoal::Compile ==> start.drive(parsed + seq![Reply::Code(Ok(code))])
                == Some(State::<H>::Done(Ok(OutputView::Code(code))))
            &&& goal == ExprGoal::Run ==> start.drive(parsed + seq![Reply::Code(Ok(code))])
                == Some(
                State::<H>::Waiting(
                    context,
                    Request::Execute { code, rest: Seq::empty(), ending: Ending::Value },
                ),
            )
            &&& goal == ExprGoal::Run ==> start.drive(
                parsed + seq![Reply::Code(Ok(code)), Reply::Executed(Ok(value))],
            ) == Some(State::<H>::Done(Ok(OutputView::Value(value))))
            &&& goal == ExprGoal::Run ==> start.drive(
                parsed + seq![Reply::Code(Ok(code)), Reply::Executed(Err(error))],
            ) == Some(State::<H>::Done(Err(error)))
        }),
{
    let start = on_expr(context, input, path, goal);
    let parsed = seq![Reply::<H>::Offset(offset), Reply::Expr(Ok(expr))];
    law_work_in_parts(start, parsed, seq![Reply::Code(Err(error))]);
    law_work_in_parts(start, parsed, seq![Reply::Code(Ok(code))]);
    law_work_in_parts(start, parsed, seq![Reply::Code(Ok(code)), Reply::Executed(Ok(value))]);
    law_work_in_parts(start, parsed, seq![Reply::Code(Ok(code)), Reply::Executed(Err(error))]);
    reveal_with_fuel(State::drive, 3);
}

/// A source that does not parse as a series of expressions ends the work with the parser's error,
/// whatever the error and whatever was wanted of the source. Parsing one that does results in the
/// very series.
pub proof fn law_exprs_parse_or_fail<H: Host>(
    context: Context<H>,
    input: Seq<char>,
    path: Option<Seq<char>>,
    skip_shebang: bool,
    goal: ProgramGoal,
    offset: H::Offset,
    exprs: Seq<Value<H>>,
    error: Error<H>,
)
    ensures
        on_program(context, input, path, skip_shebang, goal).drive(
            seq![Reply::Offset(offset), Reply::Exprs(Err(error))],
        ) == Some(State::<H>::Done(Err(error))),
        on_program(context, input, path, skip_shebang, ProgramGoal::Parse).drive(
            seq![Reply::Offset(offset), Reply::Exprs(Ok(exprs))],
        ) == Some(State::<H>::Done(Ok(OutputView::Exprs(exprs)))),
{
    reveal_with_fuel(State::drive, 3);
}

/// Where work on a program stands when a part of its expressions, or all of them, have compiled.
proof fn lemma_program_compiled<H: Host>(
    context: Context<H>,
    input: Seq<char>,
    path: Option<Seq<char>>,
    skip_shebang: bool,
    usage: ProgramUse,
    offset: H::Offset,
    exprs: Seq<Value<H>>,
    codes: Seq<H::Code>,
    compiled: Seq<Reply<H>>,
)
    requires
        codes.len() <= exprs.len(),
        compiled.len() == codes.len(),
        forall|i: int| 0 <= i < codes.len() ==> compiled[i] == Reply::<H>::Code(
            Ok(#[trigger] codes[i]),
        ),
    ensures
        on_program(context, input, path, skip_shebang, ProgramGoal::Compile(usage)).drive(
            seq![Reply::Offset(offset), Reply::Exprs(Ok(exprs))] + compiled,
        ) == Some(State::compiling(context, exprs.skip(codes.len() as int), codes, usage)),
{
    let start = on_program(context, input, path, skip_shebang, ProgramGoal::Compile(usage));
    let parsed = seq![Reply::<H>::Offset(offset), Reply::Exprs(Ok(exprs))];
    assert(compiled =~= codes_of::<H>(codes));
    lemma_two_replies(start, parsed);
    law_work_in_parts(start, parsed, compiled);
    law_program_compiles_in_order(context, exprs, Seq::empty(), usage, codes);
    assert(Seq::<H::Code>::empty() + codes =~= codes);
}

/// The expressions of a source are compiled one at a time, each once and in the order of the
/// source: when `i` of them have compiled, the one at place `i` is compiled next, those behind it
/// wait in their order, and the code objects so far are kept in theirs. An expression that does
/// not compile ends the work with its error.
pub proof fn law_exprs_are_compiled_in_source_order<H: Host>(
    context: Context<H>,
    input: Seq<char>,
    path: Option<Seq<char>>,
    skip_shebang: bool,
    usage: ProgramUse,
    offset: H::Offset,
    exprs: Seq<Value<H>>,
    codes: Seq<H::Code>,
    compiled: Seq<Reply<H>>,
    error: Error<H>,
)
    requires
        codes.len() < exprs.len(),
        compiled.len() == codes.len(),
        forall|i: int| 0 <= i < codes.len() ==> compiled[i] == Reply::<H>::Code(
            Ok(#[trigger] codes[i]),
        ),
    ensures
        on_program(context, input, path, skip_shebang, ProgramGoal::Compile(usage)).drive(
            seq![Reply::Offset(offset), Reply::Exprs(Ok(exprs))] + compiled,
        ) == Some(
            State::<H>::Waiting(
                context,
                (Request::Compile {
                    expr: exprs[codes.len() as int],
                    next: CompiledView::Collect {
                        rest: exprs.skip(codes.len() as int + 1),
                        done: codes,
                        usage,
                    },
                }),
            ),
        ),
        on_program(context, input, path, skip_shebang, ProgramGoal::Compile(usage)).drive(
            seq![Reply::Offset(offset), Reply::Exprs(Ok(exprs))] + compiled + seq![
                Reply::Code(Err(error)),
            ],
        ) == Some(State::<H>::Done(Err(error))),
{
    let start = on_program(context, input, path, skip_shebang, ProgramGoal::Compile(usage));
    let parsed = seq![Reply::<H>::Offset(offset), Reply::Exprs(Ok(exprs))];
    lemma_program_compiled(
        context,
        input,
        path,
        skip_shebang,
        usage,
        offset,
        exprs,
        codes,
        compiled,
    );
    assert(exprs.skip(codes.len() as int).drop_first() =~= exprs.skip(codes.len() as int + 1));
    law_work_in_parts(start, parsed + compiled, seq![Reply::Code(Err(error))]);
    reveal_with_fuel(State::drive, 2);
}

/// Compiling a source results in one code object for each of its expressions, in the order of the
/// source.
pub proof fn law_compiled_program_is_in_source_order<H: Host>(
    context: Context<H>,
    input: Seq<char>,
    path: Option<Seq<char>>,
    skip_shebang: bool,
    offset: H::Offset,
    exprs: Seq<Value<H>>,
    codes: Seq<H::Code>,
    compiled: Seq<Reply<H>>,
)
    requires
        codes.len() == exprs.len(),
        compiled.len() == codes.len(),
        forall|i: int| 0 <= i < codes.len() ==> compiled[i] == Reply::<H>::Code(
            Ok(#[trigger] codes[i]),
        ),
    ensures
        on_program(
            context,
            input,
            path,
            skip_shebang,
            ProgramGoal::Compile(ProgramUse::Return),
        ).drive(seq![Reply::Offset(offset), Reply::Exprs(Ok(exprs))] + compiled) == Some(
            State::<H>::Done(Ok(OutputView::Program(codes))),
        ),
{
    lemma_program_compiled(
        context,
        input,
        path,
        skip_shebang,
        ProgramUse::Return,
        offset,
        exprs,
        codes,
        compiled,
    );
}

/// Where a series of code objects stands when a part of it, or all of it, has been executed.
proof fn lemma_codes_executed<H: Host>(
    context: Context<H>,
    codes: Seq<H::Code>,
    ending: Ending,
    values: Seq<Value<H>>,
    executed: Seq<Reply<H>>,
)
    requires
        values.len() <= codes.len(),
        executed.len() == values.len(),
        forall|i: int| 0 <= i < values.len() ==> executed[i] == Reply::<H>::Executed(
            Ok(#[trigger] values[i]),
        ),
    ensures
        values.len() < codes.len() ==> State::executing(
            context,
            codes,
            Value::Unit,
            ending,
        ).drive(executed) == Some(
            State::<H>::Waiting(
                context,
                (Request::Execute {
                    code: codes[values.len() as int],
                    rest: codes.skip(values.len() as int + 1),
                    ending,
                }),
            ),
        ),
        values.len() == codes.len() && ending == Ending::Value ==> State::executing(
            context,
            codes,
            Value::Unit,
            ending,
        ).drive(executed) == Some(
            State::<H>::Done(
                Ok(
                    OutputView::Value(
                        if values.len() > 0 {
                            values[values.len() - 1]
                        } else {
                            Value::Unit
                        },
                    ),
                ),
            ),
        ),
        values.len() == codes.len() && ending == Ending::Main ==> State::executing(
            context,
            codes,
            Value::Unit,
            ending,
        ).drive(executed) == Some(
            State::<H>::Waiting(
                context,
                (Request::GetNamedValue { name: "main"@, lookup: Lookup::CallMain }),
            ),
        ),
{
    assert(executed =~= values_of(values));
    law_program_executes_in_order(context, codes, Value::Unit, ending, values);
    if values.len() < codes.len() {
        assert(codes.skip(values.len() as int).drop_first() =~= codes.skip(
            values.len() as int + 1,
        ));
    }
}

/// A series of code objects is executed one at a time, each once and in its order: when `i` of
/// them have yielded a value, the one at place `i` is executed next. The result is the value of
/// the last one, or `()` if there is none, and the first error is the error of the whole.
pub proof fn law_codes_are_executed_in_order<H: Host>(
    context: Context<H>,
    codes: Seq<H::Code>,
    values: Seq<Value<H>>,
    executed: Seq<Reply<H>>,
    error: Error<H>,
)
    requires
        values.len() <= codes.len(),
        executed.len() == values.len(),
        forall|i: int| 0 <= i < values.len() ==> executed[i] == Reply::<H>::Executed(
            Ok(#[trigger] values[i]),
        ),
    ensures
        values.len() < codes.len() ==> State::executing(
            context,
            codes,
            Value::Unit,
            Ending::Value,
        ).drive(executed) == Some(
            State::<H>::Waiting(
                context,
                (Request::Execute {
                    code: codes[values.len() as int],
                    rest: codes.skip(values.len() as int + 1),
                    ending: Ending::Value,
                }),
            ),
        ),
        values.len() < codes.len() ==> State::executing(
            context,
            codes,
            Value::Unit,
            Ending::Value,
        ).drive(executed + seq![Reply::Executed(Err(error))]) == Some(
            State::<H>::Done(Err(error)),
        ),
        values.len() == codes.len() && codes.len() > 0 ==> State::executing(
            context,
            codes,
            Value::Unit,
            Ending::Value,
        ).drive(executed) == Some(
            State::<H>::Done(Ok(OutputView::Value(values[values.len() - 1]))),
        ),
        codes.len() == 0 ==> State::executing(context, codes, Value::Unit, Ending::Value)
            == State::<H>::Done(Ok(OutputView::Value(Value::Unit))),
{
    lemma_codes_executed(context, codes, Ending::Value, values, executed);
    law_work_in_parts(
        State::executing(context, codes, Value::Unit, Ending::Value),
        executed,
        seq![Reply::Executed(Err(error))],
    );
    reveal_with_fuel(State::drive, 2);
}

/// A single code object is executed with nothing to follow it: its value is the result, and its
/// error the error.
pub proof fn law_single_code_is_executed<H: Host>(
    context: Context<H>,
    code: H::Code,
    value: Value<H>,
    error: Error<H>,
)
    ensures
        on_code(context, code) matches State::Waiting(
            at,
            Request::Execute { code: executed, rest: _, ending: _ },
        ) && at == context && executed == code,
        on_code(context, code).drive(seq![Reply::Executed(Ok(value))]) == Some(
            State::<H>::Done(Ok(OutputView::Value(value))),
        ),
        on_code(context, code).drive(seq![Reply::Executed(Err(error))]) == Some(
            State::<H>::Done(Err(error)),
        ),
{
    reveal_with_fuel(State::drive, 2);
}

/// Where work on running a program stands when all of its expressions have compiled and a part of
/// its code objects, or all of them, have been executed.
proof fn lemma_program_executed<H: Host>(
    context: Context<H>,
    input: Seq<char>,
    path: Option<Seq<char>>,
    skip_shebang: bool,
    usage: ProgramUse,
    ending: Ending,
    offset: H::Offset,
    exprs: Seq<Value<H>>,
    codes: Seq<H::Code>,
    compiled: Seq<Reply<H>>,
    values: Seq<Value<H>>,
    executed: Seq<Reply<H>>,
)
    requires
        usage == ProgramUse::Run && ending == Ending::Value || usage == ProgramUse::RunMain
            && ending == Ending::Main,
        codes.len() == exprs.len(),
        compiled.len() == codes.len(),
        forall|i: int| 0 <= i < codes.len() ==> compiled[i] == Reply::<H>::Code(
            Ok(#[trigger] codes[i]),
        ),
        values.len() <= codes.len(),
        executed.len() == values.len(),
        forall|i: int| 0 <= i < values.len() ==> executed[i] == Reply::<H>::Executed(
            Ok(#[trigger] values[i]),
        ),
    ensures
        on_program(context, input, path, skip_shebang, ProgramGoal::Compile(usage)).drive(
            seq![Reply::Offset(offset), Reply::Exprs(Ok(exprs))] + compiled + executed,
        ) == State::executing(context, codes, Value::Unit, ending).drive(executed),
{
    let start = on_program(context, input, path, skip_shebang, ProgramGoal::Compile(usage));
    let parsed = seq![Reply::<H>::Offset(offset), Reply::Exprs(Ok(exprs))];
    lemma_program_compiled(
        context,
        input,
        path,
        skip_shebang,
        usage,
        offset,
        exprs,
        codes,
        compiled,
    );
    law_work_in_parts(start, parsed + compiled, executed);
}

/// Running a source executes each of its code objects once, in the order of the source, when all
/// of them have compiled: when `i` of them have yielded a value, the one at place `i` is executed
/// next. The first error is the error of the whole.
pub proof fn law_run_executes_in_source_order<H: Host>(
    context: Context<H>,
    input: Seq<char>,
    path: Option<Seq<char>>,
    skip_shebang: bool,
    usage: ProgramUse,
    offset: H::Offset,
    exprs: Seq<Value<H>>,
    codes: Seq<H::Code>,
    compiled: Seq<Reply<H>>,
    values: Seq<Value<H>>,
    executed: Seq<Reply<H>>,
    error: Error<H>,
)
    requires
        usage != ProgramUse::Return,
        codes.len() == exprs.len(),
        compiled.len() == codes.len(),
        forall|i: int| 0 <= i < codes.len() ==> compiled[i] == Reply::<H>::Code(
            Ok(#[trigger] codes[i]),
        ),
        values.len() < codes.len(),
        executed.len() == values.len(),
        forall|i: int| 0 <= i < values.len() ==> executed[i] == Reply::<H>::Executed(
            Ok(#[trigger] values[i]),
        ),
    ensures
        on_program(context, input, path, skip_shebang, ProgramGoal::Compile(usage)).drive(
            seq![Reply::Offset(offset), Reply::Exprs(Ok(exprs))] + compiled + executed,
        ) == Some(
            State::<H>::Waiting(
                context,
                (Request::Execute {
                    code: codes[values.len() as int],
                    rest: codes.skip(values.len() as int + 1),
                    ending: if usage == ProgramUse::Run {
                        Ending::Value
                    } else {
                        Ending::Main
                    },
                }),
            ),
        ),
        on_program(context, input, path, skip_shebang, ProgramGoal::Compile(usage)).drive(
            seq![Reply::Offset(offset), Reply::Exprs(Ok(exprs))] + compiled + executed + seq![
                Reply::Executed(Err(error)),
            ],
        ) == Some(State::<H>::Done(Err(error))),
{
    let ending = if usage == ProgramUse::Run {
        Ending::Value
    } else {
        Ending::Main
    };
    let start = on_program(context, input, path, skip_shebang, ProgramGoal::Compile(usage));
    let parsed = seq![Reply::<H>::Offset(offset), Reply::Exprs(Ok(exprs))];
    lemma_program_executed(
        context,
        input,
        path,
        skip_shebang,
        usage,
        ending,
        offset,
        exprs,
        codes,
        compiled,
        values,
        executed,
    );
    lemma_codes_executed(context, codes, ending, values, executed);
    law_work_in_parts(
        start,
        parsed + compiled + executed,
        seq![Reply::Executed(Err(error))],
    );
    reveal_with_fuel(State::drive, 2);
}

/// Running a source results in the value of its last expression, or in `()` if it holds none. The
/// source of a file goes on to look for `main` instead.
pub proof fn law_run_ends_after_last_code<H: Host>(
    context: Context<H>,
    input: Seq<char>,
    path: Option<Seq<char>>,
    skip_shebang: bool,
    offset: H::Offset,
    exprs: Seq<Value<H>>,
    codes: Seq<H::Code>,
    compiled: Seq<Reply<H>>,
    values: Seq<Value<H>>,
    executed: Seq<Reply<H>>,
)
    requires
        codes.len() == exprs.len(),
        compiled.len() == codes.len(),
        forall|i: int| 0 <= i < codes.len() ==> compiled[i] == Reply::<H>::Code(
            Ok(#[trigger] codes[i]),
        ),
        values.len() == codes.len(),
        executed.len() == values.len(),
        forall|i: int| 0 <= i < values.len() ==> executed[i] == Reply::<H>::Executed(
            Ok(#[trigger] values[i]),
        ),
    ensures
        exprs.len() > 0 ==> on_program(
            context,
            input,
            path,
            skip_shebang,
            ProgramGoal::Compile(ProgramUse::Run),
        ).drive(
            seq![Reply::Offset(offset), Reply::Exprs(Ok(exprs))] + compiled + executed,
        ) == Some(State::<H>::Done(Ok(OutputView::Value(values[exprs.len() - 1])))),
        exprs.len() == 0 ==> on_program(
            context,
            input,
            path,
            skip_shebang,
            ProgramGoal::Compile(ProgramUse::Run),
        ).drive(
            seq![Reply::Offset(offset), Reply::Exprs(Ok(exprs))] + compiled + executed,
        ) == Some(State::<H>::Done(Ok(OutputView::Value(Value::Unit)))),
        on_program(
            context,
            input,
            path,
            skip_shebang,
            ProgramGoal::Compile(ProgramUse::RunMain),
        ).drive(
            seq![Reply::Offset(offset), Reply::Exprs(Ok(exprs))] + compiled + executed,
        ) == Some(
            State::<H>::Waiting(
                context,
                (Request::GetNamedValue { name: "main"@, lookup: Lookup::CallMain }),
            ),
        ),
{
    lemma_program_executed(
        context,
        input,
        path,
        skip_shebang,
        ProgramUse::Run,
        Ending::Value,
        offset,
        exprs,
        codes,
        compiled,
        values,
        executed,
    );
    lemma_codes_executed(context, codes, Ending::Value, values, executed);
    lemma_program_executed(
        context,
        input,
        path,
        skip_shebang,
        ProgramUse::RunMain,
        Ending::Main,
        offset,
        exprs,
        codes,
        compiled,
        values,
        executed,
    );
    lemma_codes_executed(context, codes, Ending::Main, values, executed);
}

/// The start of work on a file that can be read.
proof fn lemma_file_read<H: Host>(
    context: Context<H>,
    file: PathBuf,
    input: Seq<char>,
    replies: Seq<Reply<H>>,
)
    ensures
        State::<H>::Waiting(context, (Request::OpenFile { path: file })).drive(
            seq![Reply::Opened(Ok(())), Reply::Read(Ok(input))] + replies,
        ) == on_program(
            context,
            input,
            Some(path_text(file)),
            true,
            ProgramGoal::Compile(ProgramUse::RunMain),
        ).drive(replies),
{
    let start = State::<H>::Waiting(context, Request::OpenFile { path: file });
    let opened = seq![Reply::<H>::Opened(Ok(())), Reply::Read(Ok(input))];
    lemma_two_replies(start, opened);
    law_work_in_parts(start, opened, replies);
}

/// Running a file adds its whole text to the code map under the text of its path, and has it
/// parsed without its shebang line. A file that cannot be opened, read or parsed ends the work
/// with that error.
pub proof fn law_run_file_starts_with_its_text<H: Host>(
    context: Context<H>,
    file: PathBuf,
    input: Seq<char>,
    offset: H::Offset,
    unopened: std::io::Error,
    unread: std::io::Error,
    error: Error<H>,
)
    ensures
        ({
            let start = State::<H>::Waiting(context, Request::OpenFile { path: file });
            let opened = Reply::<H>::Opened(Ok(()));
            let read = Reply::<H>::Read(Ok(input));
            let goal = ProgramGoal::Compile(ProgramUse::RunMain);
            &&& start.drive(seq![Reply::Opened(Err(unopened))]) == Some(
                State::<H>::Done(
                    Err(
                        Error::IoError(
                            IoError { mode: IoMode::Open, path: file, err: unopened },
                        ),
                    ),
                ),
            )
            &&& start.drive(seq![opened, Reply::Read(Err(unread))]) == Some(
                State::<H>::Done(
                    Err(Error::IoError(IoError { mode: IoMode::Read, path: file, err: unread })),
                ),
            )
            &&& start.drive(seq![opened, read]) == Some(
                State::<H>::Waiting(
                    context,
                    Request::AddSource {
                        input,
                        path: Some(path_text(file)),
                        goal: Goal::Program { skip_shebang: true, goal },
                    },
                ),
            )
            &&& start.drive(seq![opened, read, Reply::Offset(offset)]) == Some(
                State::<H>::Waiting(
                    context,
                    Request::ParseExprs { input, offset, skip_shebang: true, goal },
                ),
            )
            &&& start.drive(
                seq![opened, read, Reply::Offset(offset), Reply::Exprs(Err(error))],
            ) == Some(State::<H>::Done(Err(error)))
        }),
{
    reveal_with_fuel(State::drive, 5);
}

/// Running a file compiles each of its expressions once, in the order of the file, before it
/// executes any of them. The first that does not compile ends the work with its error.
pub proof fn law_run_file_compiles_in_source_order<H: Host>(
    context: Context<H>,
    file: PathBuf,
    input: Seq<char>,
    offset: H::Offset,
    exprs: Seq<Value<H>>,
    codes: Seq<H::Code>,
    compiled: Seq<Reply<H>>,
    error: Error<H>,
)
    requires
        codes.len() < exprs.len(),
        compiled.len() == codes.len(),
        forall|i: int| 0 <= i < codes.len() ==> compiled[i] == Reply::<H>::Code(
            Ok(#[trigger] codes[i]),
        ),
    ensures
        State::<H>::Waiting(context, (Request::OpenFile { path: file })).drive(
            seq![Reply::Opened(Ok(())), Reply::Read(Ok(input))] + (seq![
                Reply::Offset(offset),
                Reply::Exprs(Ok(exprs)),
            ] + compiled),
        ) == Some(
            State::<H>::Waiting(
                context,
                (Request::Compile {
                    expr: exprs[codes.len() as int],
                    next: CompiledView::Collect {
                        rest: exprs.skip(codes.len() as int + 1),
                        done: codes,
                        usage: ProgramUse::RunMain,
                    },
                }),
            ),
        ),
        State::<H>::Waiting(context, (Request::OpenFile { path: file })).drive(
            seq![Reply::Opened(Ok(())), Reply::Read(Ok(input))] + (seq![
                Reply::Offset(offset),
                Reply::Exprs(Ok(exprs)),
            ] + compiled + seq![Reply::Code(Err(error))]),
        ) == Some(State::<H>::Done(Err(error))),
{
    let parsed = seq![Reply::<H>::Offset(offset), Reply::Exprs(Ok(exprs))];
    lemma_file_read(context, file, input, parsed + compiled);
    lemma_file_read(context, file, input, parsed + compiled + seq![Reply::Code(Err(error))]);
    law_exprs_are_compiled_in_source_order(
        context,
        input,
        Some(path_text(file)),
        true,
        ProgramUse::RunMain,
        offset,
        exprs,
        codes,
        compiled,
        error,
    );
}

/// Running a file executes each of its code objects once, in the order of the file: when `i` of
/// them have yielded a value, the one at place `i` is executed next. The first error is the error
/// of the whole.
pub proof fn law_run_file_executes_in_source_order<H: Host>(
    context: Context<H>,
    file: PathBuf,
    input: Seq<char>,
    offset: H::Offset,
    exprs: Seq<Value<H>>,
    codes: Seq<H::Code>,
    compiled: Seq<Reply<H>>,
    values: Seq<Value<H>>,
    executed: Seq<Reply<H>>,
    error: Error<H>,
)
    requires
        codes.len() == exprs.len(),
        compiled.len() == codes.len(),
        forall|i: int| 0 <= i < codes.len() ==> compiled[i] == Reply::<H>::Code(
            Ok(#[trigger] codes[i]),
        ),
        values.len() < codes.len(),
        executed.len() == values.len(),
        forall|i: int| 0 <= i < values.len() ==> executed[i] == Reply::<H>::Executed(
            Ok(#[trigger] values[i]),
        ),
    ensures
        State::<H>::Waiting(context, (Request::OpenFile { path: file })).drive(
            seq![Reply::Opened(Ok(())), Reply::Read(Ok(input))] + (seq![
                Reply::Offset(offset),
                Reply::Exprs(Ok(exprs)),
            ] + compiled + executed),
        ) == Some(
            State::<H>::Waiting(
                context,
                (Request::Execute {
                    code: codes[values.len() as int],
                    rest: codes.skip(values.len() as int + 1),
                    ending: Ending::Main,
                }),
            ),
        ),
        State::<H>::Waiting(context, (Request::OpenFile { path: file })).drive(
            seq![Reply::Opened(Ok(())), Reply::Read(Ok(input))] + (seq![
                Reply::Offset(offset),
                Reply::Exprs(Ok(exprs)),
            ] + compiled + executed + seq![Reply::Executed(Err(error))]),
        ) == Some(State::<H>::Done(Err(error))),
{
    let replies = seq![Reply::<H>::Offset(offset), Reply::Exprs(Ok(exprs))] + compiled + executed;
    lemma_file_read(context, file, input, replies);
    lemma_file_read(context, file, input, replies + seq![Reply::Executed(Err(error))]);
    law_run_executes_in_source_order(
        context,
        input,
        Some(path_text(file)),
        true,
        ProgramUse::RunMain,
        offset,
        exprs,
        codes,
        compiled,
        values,
        executed,
        error,
    );
}

/// Running a file ends, when its last code object has been executed, with a call of `main`
/// without arguments if there is one. The result is nothing either way, and the error of `main`
/// is the error of the whole.
pub proof fn law_run_file_ends_with_main<H: Host>(
    context: Context<H>,
    file: PathBuf,
    input: Seq<char>,
    offset: H::Offset,
    exprs: Seq<Value<H>>,
    codes: Seq<H::Code>,
    compiled: Seq<Reply<H>>,
    values: Seq<Value<H>>,
    executed: Seq<Reply<H>>,
    main: Value<H>,
    result: Value<H>,
    error: Error<H>,
)
    requires
        codes.len() == exprs.len(),
        compiled.len() == codes.len(),
        forall|i: int| 0 <= i < codes.len() ==> compiled[i] == Reply::<H>::Code(
            Ok(#[trigger] codes[i]),
        ),
        values.len() == codes.len(),
        executed.len() == values.len(),
        forall|i: int| 0 <= i < values.len() ==> executed[i] == Reply::<H>::Executed(
            Ok(#[trigger] values[i]),
        ),
    ensures
        ({
            let start = State::<H>::Waiting(context, Request::OpenFile { path: file });
            let done = seq![Reply::<H>::Opened(Ok(())), Reply::Read(Ok(input))] + (seq![
                Reply::<H>::Offset(offset),
                Reply::Exprs(Ok(exprs)),
            ] + compiled + executed);
            let found = Reply::<H>::Found(Some(main));
            &&& start.drive(done) == Some(
                State::<H>::Waiting(
                    context,
                    Request::GetNamedValue { name: "main"@, lookup: Lookup::CallMain },
                ),
            )
            &&& start.drive(done + seq![Reply::Found(None)]) == Some(
                State::<H>::Done(Ok(OutputView::Unit)),
            )
            &&& start.drive(done + seq![found]) == Some(
                State::<H>::Waiting(
                    context,
                    Request::CallFunction {
                        value: main,
                        args: Seq::empty(),
                        returned: Returned::Discard,
                    },
                ),
            )
            &&& start.drive(done + seq![found, Reply::Called(Ok(result))]) == Some(
                State::<H>::Done(Ok(OutputView::Unit)),
            )
            &&& start.drive(done + seq![found, Reply::Called(Err(error))]) == Some(
                State::<H>::Done(Err(error)),
            )
        }),
{
    let start = State::<H>::Waiting(context, Request::OpenFile { path: file });
    let ran = seq![Reply::<H>::Offset(offset), Reply::Exprs(Ok(exprs))] + compiled + executed;
    let done = seq![Reply::<H>::Opened(Ok(())), Reply::Read(Ok(input))] + ran;
    let found = Reply::<H>::Found(Some(main));
    lemma_file_read(context, file, input, ran);
    law_run_ends_after_last_code(
        context,
        input,
        Some(path_text(file)),
        true,
        offset,
        exprs,
        codes,
        compiled,
        values,
        executed,
    );
    law_work_in_parts(start, done, seq![Reply::Found(None)]);
    law_work_in_parts(start, done, seq![found]);
    law_work_in_parts(start, done, seq![found, Reply::Called(Ok(result))]);
    law_work_in_parts(start, done, seq![found, Reply::Called(Err(error))]);
    reveal_with_fuel(State::drive, 3);
}

/// Running a source is compiling it and then executing the program: the replies that lead
/// compiling to a series of code objects lead running to where executing that series starts, and
/// from there on the two go the same way.
pub proof fn law_run_is_compile_then_execute<H: Host>(
    context: Context<H>,
    input: Seq<char>,
    path: Option<Seq<char>>,
    offset: H::Offset,
    exprs: Seq<Value<H>>,
    codes: Seq<H::Code>,
    compiled: Seq<Reply<H>>,
    replies: Seq<Reply<H>>,
)
    requires
        codes.len() == exprs.len(),
        compiled.len() == codes.len(),
        forall|i: int| 0 <= i < codes.len() ==> compiled[i] == Reply::<H>::Code(
            Ok(#[trigger] codes[i]),
        ),
    ensures
        on_program(
            context,
            input,
            path,
            false,
            ProgramGoal::Compile(ProgramUse::Return),
        ).drive(seq![Reply::Offset(offset), Reply::Exprs(Ok(exprs))] + compiled) == Some(
            State::<H>::Done(Ok(OutputView::Program(codes))),
        ),
        on_program(context, input, path, false, ProgramGoal::Compile(ProgramUse::Run)).drive(
            seq![Reply::Offset(offset), Reply::Exprs(Ok(exprs))] + compiled + replies,
        ) == State::executing(context, codes, Value::Unit, Ending::Value).drive(replies),
{
    let start = on_program(context, input, path, false, ProgramGoal::Compile(ProgramUse::Run));
    let parsed = seq![Reply::<H>::Offset(offset), Reply::Exprs(Ok(exprs))];
    law_compiled_program_is_in_source_order(
        context,
        input,
        path,
        false,
        offset,
        exprs,
        codes,
        compiled,
    );
    lemma_program_compiled(
        context,
        input,
        path,
        false,
        ProgramUse::Run,
        offset,
        exprs,
        codes,
        compiled,
    );
    law_work_in_parts(start, parsed + compiled, replies);
}

/// Calling a function results in what it returns, or in its error, whatever the error.
pub proof fn law_call_value_returns_or_fails<H: Host>(
    context: Context<H>,
    value: Value<H>,
    args: Seq<Value<H>>,
    result: Value<H>,
    error: Error<H>,
)
    ensures
        State::Waiting(
            context,
            (Request::CallFunction { value, args, returned: Returned::Keep }),
        ).drive(seq![Reply::Called(Ok(result))]) == Some(
            State::<H>::Done(Ok(OutputView::Value(result))),
        ),
        State::Waiting(
            context,
            (Request::CallFunction { value, args, returned: Returned::Keep }),
        ).drive(seq![Reply::Called(Err(error))]) == Some(State::<H>::Done(Err(error))),
{
    reveal_with_fuel(State::drive, 2);
}

/// Calling a name looks the interned name up, calls the value found with the very arguments, and
/// results in what it returns or in its error, whatever the error. A name without a value is
/// named in the error.
pub proof fn law_call_returns_or_fails<H: Host>(
    context: Context<H>,
    text: Seq<char>,
    args: Seq<Value<H>>,
    name: H::Name,
    value: Value<H>,
    result: Value<H>,
    error: Error<H>,
)
    ensures
        ({
            let start = State::Waiting(context, Request::AddName { name: text, args });
            let found = Reply::<H>::Found(Some(value));
            &&& start.drive(seq![Reply::Name(name)]) == Some(
                State::Waiting(context, Request::GetValue { name, args }),
            )
            &&& start.drive(seq![Reply::Name(name), Reply::Found(None)]) == Some(
                State::<H>::Done(Err(Error::ExecError(ExecError::NameError(name)))),
            )
            &&& start.drive(seq![Reply::Name(name), found]) == Some(
                State::Waiting(
                    context,
                    Request::CallFunction { value, args, returned: Returned::Keep },
                ),
            )
            &&& start.drive(seq![Reply::Name(name), found, Reply::Called(Ok(result))]) == Some(
                State::<H>::Done(Ok(OutputView::Value(result))),
            )
            &&& start.drive(seq![Reply::Name(name), found, Reply::Called(Err(error))]) == Some(
                State::<H>::Done(Err(error)),
            )
        }),
{
    reveal_with_fuel(State::drive, 4);
}

/// Looking a value up results in what the scope has, be it a value or none.
pub proof fn law_get_value_results_in_what_is_found<H: Host>(
    context: Context<H>,
    name: Seq<char>,
    found: Option<Value<H>>,
)
    ensures
        State::Waiting(context, (Request::GetNamedValue { name, lookup: Lookup::Return })).drive(
            seq![Reply::Found(found)],
        ) == Some(State::<H>::Done(Ok(OutputView::Found(found)))),
{
    reveal_with_fuel(State::drive, 2);
}

/// Setting the arguments and clearing the code map end with nothing.
pub proof fn law_set_args_and_clear_end_with_nothing<H: Host>(
    context: Context<H>,
    name: Seq<char>,
    strings: Seq<Seq<char>>,
)
    ensures
        State::<H>::Waiting(context, (Request::AddNamedValue { name, strings })).drive(
            seq![Reply::Ack],
        ) == Some(State::<H>::Done(Ok(OutputView::Unit))),
        State::<H>::Waiting(context, Request::ClearCodeMap).drive(seq![Reply::Ack]) == Some(
            State::<H>::Done(Ok(OutputView::Unit)),
        ),
{
    reveal_with_fuel(State::drive, 2);
}

/// An error or a traceback is printed to the standard error output as one line: the heading of
/// its kind and then its text, or for an error without a heading of its own its description, a
/// colon, a space and its text. Nothing follows.
pub proof fn law_errors_are_printed_with_headings<H: Host>(
    context: Context<H>,
    uncompiled: H::CompileError,
    raised: ExecError<H>,
    failed: IoError,
    other: H::Error,
    trace: H::Trace,
    description: Seq<char>,
    text: Seq<char>,
)
    ensures
        ({
            let shown = seq![Reply::<H>::Shown(text)];
            let described = seq![Reply::<H>::Described(description, text)];
            let traced = State::<H>::Waiting(
                context,
                Request::DisplayNames { item: NamedView::Trace(trace) },
            );
            let line = |line: Seq<char>|
                State::<H>::Waiting(
                    context,
                    Request::Print { stream: Stream::Stderr, lines: seq![line] },
                );
            &&& on_error(context, Error::CompileError(uncompiled)).drive(shown) == Some(
                line("compile error: "@ + text),
            )
            &&& on_error(context, Error::ExecError(raised)).drive(shown) == Some(
                line("execution error: "@ + text),
            )
            &&& on_error(context, Error::IoError(failed)).drive(described) == Some(
                line(description + ": "@ + text),
            )
            &&& on_error(context, Error::Other(other)).drive(described) == Some(
                line(description + ": "@ + text),
            )
            &&& traced.drive(shown) == Some(line("Traceback:\n\n"@ + text))
            &&& line(text).drive(seq![Reply::Ack]) == Some(State::<H>::Done(Ok(OutputView::Unit)))
        }),
{
    reveal_with_fuel(State::drive, 2);
}

/// A parse error is printed to the standard error output as three lines: where it is, with
/// `<input>` for a source without a file, and what it is; then the source and its marks, both
/// indented. Nothing follows.
pub proof fn law_parse_error_is_printed_with_its_place<H: Host>(
    context: Context<H>,
    error: ParseError<H>,
    hi: HighlightView,
    kind: Seq<char>,
)
    ensures
        ({
            let start = on_error(context, Error::ParseError(error));
            let name = if hi.filename is Some {
                hi.filename->0
            } else {
                "<input>"@
            };
            let place = name + ":"@ + decimal(hi.line) + ":"@ + decimal(hi.col);
            &&& start.drive(seq![Reply::Highlighted(hi, kind)]) == Some(
                State::<H>::Waiting(
                    context,
                    Request::Print {
                        stream: Stream::Stderr,
                        lines: seq![
                            place + ":parse error: "@ + kind,
                            "    "@ + hi.source,
                            "    "@ + hi.highlight,
                        ],
                    },
                ),
            )
            &&& start.drive(seq![Reply::Highlighted(hi, kind), Reply::Ack]) == Some(
                State::<H>::Done(Ok(OutputView::Unit)),
            )
        }),
{
    reveal_with_fuel(State::drive, 3);
}

/// Formatting a value results in its text, and displaying it prints that text to the standard
/// output as one line and ends with nothing.
pub proof fn law_values_are_formatted_or_printed<H: Host>(
    context: Context<H>,
    value: Value<H>,
    text: Seq<char>,
)
    ensures
        State::Waiting(context, (Request::DebugNames { value, print: false })).drive(
            seq![Reply::Shown(text)],
        ) == Some(State::<H>::Done(Ok(OutputView::Text(text)))),
        State::Waiting(context, (Request::DebugNames { value, print: true })).drive(
            seq![Reply::Shown(text)],
        ) == Some(
            State::<H>::Waiting(
                context,
                (Request::Print { stream: Stream::Stdout, lines: seq![text] }),
            ),
        ),
        State::Waiting(context, (Request::DebugNames { value, print: true })).drive(
            seq![Reply::Shown(text), Reply::Ack],
        ) == Some(State::<H>::Done(Ok(OutputView::Unit))),
{
    reveal_with_fuel(State::drive, 3);
}

/// A builder's settings reach the parts that they are for. Where a scope is made, its name store
/// is asked for the name that was set, or `main`; its registry is made from the loader that was
/// set, or from the search paths that were set, or from the built-in loader; it has the handles
/// that were set, or the standard ones. The context is made with the limits that were set, or
/// with none.
pub proof fn law_settings_reach_their_parts<H: Host>(
    settings: Settings<H>,
    names: H::Names,
    name: H::Name,
    codemap: H::CodeMap,
    modules: H::Modules,
    scope: H::Scope,
)
    requires
        settings.context is None,
        settings.scope is None,
    ensures
        ({
            let named = seq![Part::<H>::Names(names)];
            let mapped = seq![Part::<H>::Names(names), Part::Name(name), Part::CodeMap(codemap)];
            let registered = seq![
                Part::<H>::Names(names),
                Part::Name(name),
                Part::CodeMap(codemap),
                Part::Modules(modules),
            ];
            let scoped = seq![
                Part::<H>::Names(names),
                Part::Name(name),
                Part::CodeMap(codemap),
                Part::Modules(modules),
                Part::Scope(scope),
            ];
            &&& settings.setup().made_all(named) matches Some(
                SetupState::AddScopeName { names: store, plan, restrict: _ },
            ) && store == names && plan.name == match settings.name {
                Some(set) => set,
                None => "main",
            }
            &&& settings.setup().made_all(mapped) matches Some(
                SetupState::NewModules { loader, .. },
            ) && loader == match (settings.module_loader, settings.search_paths) {
                (Some(set), _) => set,
                (None, Some(paths)) => ModuleLoader::BuiltinThenFiles(paths),
                (None, None) => ModuleLoader::Builtin,
            }
            &&& settings.setup().made_all(registered) matches Some(
                SetupState::NewScope { global, restrict: _ },
            ) && global == (GlobalScope {
                name,
                names,
                codemap,
                modules,
                io: match settings.io {
                    Some(set) => set,
                    None => GlobalIo::Default,
                },
            })
            &&& settings.setup().made_all(scoped) == Some(
                SetupState::NewContext {
                    scope,
                    restrict: match settings.restrict {
                        Some(set) => set,
                        None => RestrictConfig::Permissive,
                    },
                },
            )
        }),
{
    reveal_with_fuel(SetupState::made_all, 6);
}

/// Each setting is used for itself alone: two builders without a context or a scope that agree
/// on a setting agree on what is made from it, whatever else is set on either.
pub proof fn law_settings_do_not_interfere<H: Host>(a: Settings<H>, b: Settings<H>)
    requires
        a.context is None && a.scope is None,
        b.context is None && b.scope is None,
    ensures
        a.setup() matches SetupState::NewNames { plan: p, restrict: r } && (b.setup() matches
            SetupState::NewNames { plan: q, restrict: s } && {
            &&& a.restrict == b.restrict ==> r == s
            &&& a.name == b.name ==> p.name == q.name
            &&& a.io == b.io ==> p.io == q.io
            &&& a.module_loader == b.module_loader && a.search_paths == b.search_paths ==> p.loader
                == q.loader
        }),
{
}

} // verus!
