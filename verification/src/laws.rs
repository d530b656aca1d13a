//! What holds of the library as a whole.

use crate::builder::{Setting, Settings};
use crate::context::{Context, GlobalScope, ModuleLoader, RestrictConfig, ScopePlan};
use crate::host::{path_text, Error, ExecError, Host, IoError, IoMode, ParseError, Value};
use crate::interpreter::{main_setup, on_code, on_error, on_expr, on_program};
use crate::model::{
    CompiledView, Ending, ExprGoal, Goal, Lookup, NamedView, OutputView, ProgramGoal, ProgramUse,
    Reply, Request, Returned, State, Stream,
};
use crate::setup::{Part, SetupState};
use crate::text::{parse_error_lines, HighlightView};
use std::path::PathBuf;
use vstd::prelude::*;

verus! {

/// Replies to a series of code objects that each yield a value.
pub open spec fn values_of<H: Host>(values: Seq<Value<H>>) -> Seq<Reply<H>> {
    values.map_values(|value: Value<H>| Reply::<H>::Executed(Ok(value)))
}

/// Replies to a series of expressions that each compile.
pub open spec fn codes_of<H: Host>(codes: Seq<H::Code>) -> Seq<Reply<H>> {
    codes.map_values(|code: H::Code| Reply::<H>::Code(Ok(code)))
}

/// The value of a program whose code objects yield `values`: the last of them, or `()`.
pub open spec fn program_value<H: Host>(values: Seq<Value<H>>) -> Value<H> {
    if values.len() > 0 {
        values.last()
    } else {
        Value::Unit
    }
}

/// The stage of the work that a state belongs to, counted down to the end.
pub open spec fn stage<H: Host>(s: State<H>) -> nat {
    match s {
        State::Waiting(_, request) => match request {
            Request::OpenFile { .. } => 9,
            Request::ReadFile { .. } => 8,
            Request::AddSource { .. } => 7,
            Request::ParseSingleExpr { .. } => 6,
            Request::ParseExprs { .. } => 6,
            Request::Compile { .. } => 5,
            Request::Execute { .. } => 4,
            Request::AddName { .. } => 4,
            Request::GetValue { .. } => 3,
            Request::GetNamedValue { .. } => 3,
            Request::CallFunction { .. } => 2,
            Request::DisplayNames { .. } => 2,
            Request::HighlightSpan { .. } => 2,
            Request::Describe { .. } => 2,
            Request::DebugNames { .. } => 2,
            Request::AddNamedValue { .. } => 1,
            Request::ClearCodeMap => 1,
            Request::Print { .. } => 1,
        },
        State::Done(_) => 0,
    }
}

/// How many more times the stage of a state is gone through.
pub open spec fn rounds<H: Host>(s: State<H>) -> nat {
    match s {
        State::Waiting(_, request) => match request {
            Request::Compile { next: CompiledView::Collect { rest, .. }, .. } => rest.len(),
            Request::Execute { rest, .. } => rest.len(),
            _ => 0,
        },
        State::Done(_) => 0,
    }
}

/// Work comes to an end: every reply leads to a later stage, or to the same stage with fewer
/// rounds left.
pub proof fn law_work_ends<H: Host>(s: State<H>, reply: Reply<H>)
    ensures
        s.react(reply) matches Some(next) ==> stage(next) < stage(s) || (stage(next) == stage(s)
            && rounds(next) < rounds(s)),
{
}

/// Finished work takes no reply.
pub proof fn law_done_is_final<H: Host>(result: Result<OutputView<H>, Error<H>>, reply: Reply<H>)
    ensures
        State::Done(result).react(reply) is None,
{
}

/// Unfinished work is never stuck: there is a reply that it takes.
pub proof fn law_work_goes_on<H: Host>(context: Context<H>, request: Request<H>)
    ensures
        exists|reply: Reply<H>| (#[trigger] State::Waiting(context, request).react(reply)) is Some,
{
    let witness: Reply<H> = match request {
        Request::OpenFile { .. } => Reply::Opened(Ok(())),
        Request::ReadFile { .. } => Reply::Read(Ok(Seq::empty())),
        Request::AddSource { .. } => Reply::Offset(arbitrary()),
        Request::ParseSingleExpr { .. } => Reply::Expr(Ok(Value::Unit)),
        Request::ParseExprs { .. } => Reply::Exprs(Ok(Seq::empty())),
        Request::Compile { .. } => Reply::Code(arbitrary()),
        Request::Execute { .. } => Reply::Executed(Ok(Value::Unit)),
        Request::AddName { .. } => Reply::Name(arbitrary()),
        Request::GetValue { .. } => Reply::Found(None),
        Request::GetNamedValue { .. } => Reply::Found(None),
        Request::CallFunction { .. } => Reply::Called(Ok(Value::Unit)),
        Request::DisplayNames { .. } => Reply::Shown(Seq::empty()),
        Request::HighlightSpan { .. } => Reply::Highlighted(arbitrary(), Seq::empty()),
        Request::Describe { .. } => Reply::Described(Seq::empty(), Seq::empty()),
        Request::DebugNames { .. } => Reply::Shown(Seq::empty()),
        _ => Reply::Ack,
    };
    assert(State::Waiting(context, request).react(witness) is Some);
}

/// Work stays in the context that it starts in: whatever the replies, the engine is asked for
/// nothing in another context.
pub proof fn law_work_stays_in_its_context<H: Host>(
    context: Context<H>,
    request: Request<H>,
    replies: Seq<Reply<H>>,
)
    ensures
        State::Waiting(context, request).drive(replies) matches Some(State::Waiting(at, _)) ==> at
            == context,
    decreases replies.len(),
{
    reveal_with_fuel(State::drive, 2);
    if replies.len() > 0 {
        if let Some(next) = State::Waiting(context, request).react(replies[0]) {
            if let State::Waiting(at, request) = next {
                law_work_stays_in_its_context(at, request, replies.drop_first());
            }
        }
    }
}

/// The kinds of results.
pub enum Kind {
    /// Nothing.
    Unit,
    /// A value.
    Value,
    /// A value, if the scope has one.
    Found,
    /// A series of expressions.
    Exprs,
    /// A code object.
    Code,
    /// A series of code objects.
    Program,
    /// A text.
    Text,
}

/// The kind of a result.
pub open spec fn kind_of<H: Host>(output: OutputView<H>) -> Kind {
    match output {
        OutputView::Unit => Kind::Unit,
        OutputView::Value(_) => Kind::Value,
        OutputView::Found(_) => Kind::Found,
        OutputView::Exprs(_) => Kind::Exprs,
        OutputView::Code(_) => Kind::Code,
        OutputView::Program(_) => Kind::Program,
        OutputView::Text(_) => Kind::Text,
    }
}

/// Work that ends without an error ends with a result of the given kind, whatever the replies.
pub open spec fn ends_with<H: Host>(s: State<H>, kind: Kind) -> bool {
    forall|replies: Seq<Reply<H>>| #[trigger]
        s.drive(replies) matches Some(State::Done(Ok(output))) ==> kind_of(output) == kind
}

/// Every operation has its own kind of result.
///
/// Running, executing and calling end with a value, a look-up with a value if the scope has one,
/// and formatting with a text. Parsing and compiling end with one expression or code object or
/// with a series of them. Everything else ends with nothing.
pub proof fn law_operations_end_with_their_kind<H: Host>(
    context: Context<H>,
    input: Seq<char>,
    path: Option<Seq<char>>,
    shebang: bool,
    file: PathBuf,
    code: H::Code,
    codes: Seq<H::Code>,
    name: Seq<char>,
    value: Value<H>,
    args: Seq<Value<H>>,
    strings: Seq<Seq<char>>,
    error: Error<H>,
    trace: H::Trace,
)
    ensures
        ends_with(on_expr(context, input, path, ExprGoal::Parse), Kind::Value),
        ends_with(on_expr(context, input, path, ExprGoal::Compile), Kind::Code),
        ends_with(on_expr(context, input, path, ExprGoal::Run), Kind::Value),
        ends_with(on_program(context, input, path, shebang, ProgramGoal::Parse), Kind::Exprs),
        ends_with(
            on_program(context, input, path, shebang, ProgramGoal::Compile(ProgramUse::Return)),
            Kind::Program,
        ),
        ends_with(
            on_program(context, input, path, shebang, ProgramGoal::Compile(ProgramUse::Run)),
            Kind::Value,
        ),
        ends_with(on_code(context, code), Kind::Value),
        ends_with(State::executing(context, codes, Value::Unit, Ending::Value), Kind::Value),
        ends_with(State::Waiting(context, (Request::AddName { name, args })), Kind::Value),
        ends_with(
            State::Waiting(
                context,
                (Request::CallFunction { value, args, returned: Returned::Keep }),
            ),
            Kind::Value,
        ),
        ends_with(
            State::<H>::Waiting(
                context,
                (Request::GetNamedValue { name, lookup: Lookup::Return }),
            ),
            Kind::Found,
        ),
        ends_with(
            State::Waiting(context, (Request::DebugNames { value, print: false })),
            Kind::Text,
        ),
        ends_with(
            State::Waiting(context, (Request::DebugNames { value, print: true })),
            Kind::Unit,
        ),
        ends_with(State::<H>::Waiting(context, (Request::OpenFile { path: file })), Kind::Unit),
        ends_with(
            State::<H>::Waiting(context, (Request::AddNamedValue { name, strings })),
            Kind::Unit,
        ),
        ends_with(State::<H>::Waiting(context, Request::ClearCodeMap), Kind::Unit),
        ends_with(on_error(context, error), Kind::Unit),
        ends_with(
            State::<H>::Waiting(
                context,
                (Request::DisplayNames { item: NamedView::Trace(trace) }),
            ),
            Kind::Unit,
        ),
{
    assert forall|s: State<H>, kind: Kind| heads_for(s, kind) implies #[trigger] ends_with(
        s,
        kind,
    ) by {
        assert forall|replies: Seq<Reply<H>>|
            (#[trigger] s.drive(replies) matches Some(State::Done(Ok(output))) ==> kind_of(output)
                == kind) by {
            lemma_heads_for(s, kind, replies);
        }
    }
}

/// Whether work has ended with an error, or has ended or is going to end with a result of the
/// given kind.
spec fn heads_for<H: Host>(s: State<H>, kind: Kind) -> bool {
    match s {
        State::Waiting(_, request) => kind == match request {
            Request::AddSource { goal, .. } => match goal {
                Goal::Expr(goal) => expr_kind(goal),
                Goal::Program { goal, .. } => program_kind(goal),
            },
            Request::ParseSingleExpr { goal, .. } => expr_kind(goal),
            Request::ParseExprs { goal, .. } => program_kind(goal),
            Request::Compile { next, .. } => match next {
                CompiledView::Return => Kind::Code,
                CompiledView::Run => Kind::Value,
                CompiledView::Collect { usage, .. } => program_kind(ProgramGoal::Compile(usage)),
            },
            Request::Execute { ending: Ending::Value, .. } => Kind::Value,
            Request::AddName { .. } => Kind::Value,
            Request::GetValue { .. } => Kind::Value,
            Request::GetNamedValue { lookup: Lookup::Return, .. } => Kind::Found,
            Request::CallFunction { returned: Returned::Keep, .. } => Kind::Value,
            Request::DebugNames { print: false, .. } => Kind::Text,
            _ => Kind::Unit,
        },
        State::Done(Ok(output)) => kind == kind_of(output),
        State::Done(Err(_)) => true,
    }
}

spec fn expr_kind(goal: ExprGoal) -> Kind {
    match goal {
        ExprGoal::Parse => Kind::Value,
        ExprGoal::Compile => Kind::Code,
        ExprGoal::Run => Kind::Value,
    }
}

spec fn program_kind(goal: ProgramGoal) -> Kind {
    match goal {
        ProgramGoal::Parse => Kind::Exprs,
        ProgramGoal::Compile(ProgramUse::Return) => Kind::Program,
        ProgramGoal::Compile(ProgramUse::Run) => Kind::Value,
        ProgramGoal::Compile(ProgramUse::RunMain) => Kind::Unit,
    }
}

proof fn lemma_heads_for<H: Host>(s: State<H>, kind: Kind, replies: Seq<Reply<H>>)
    requires
        heads_for(s, kind),
    ensures
        s.drive(replies) matches Some(end) ==> heads_for(end, kind),
    decreases replies.len(),
{
    if replies.len() > 0 {
        if let Some(next) = s.react(replies[0]) {
            lemma_heads_for(next, kind, replies.drop_first());
        }
    }
}

/// Work may be carried through in two parts: what a series of replies leads to is what its
/// second part leads to from where its first part ends.
pub proof fn law_work_in_parts<H: Host>(s: State<H>, first: Seq<Reply<H>>, second: Seq<Reply<H>>)
    ensures
        s.drive(first + second) == match s.drive(first) {
            Some(middle) => middle.drive(second),
            None => None,
        },
    decreases first.len(),
{
    if first.len() == 0 {
        assert(first + second =~= second);
    } else {
        assert((first + second)[0] == first[0]);
        assert((first + second).drop_first() =~= first.drop_first() + second);
        if let Some(next) = s.react(first[0]) {
            law_work_in_parts(next, first.drop_first(), second);
        }
    }
}

/// Code objects are executed one after another: when the first `values.len()` of them have
/// yielded `values`, the rest are left, and the last value is the value so far.
pub proof fn law_program_executes_in_order<H: Host>(
    context: Context<H>,
    codes: Seq<H::Code>,
    last: Value<H>,
    ending: Ending,
    values: Seq<Value<H>>,
)
    requires
        values.len() <= codes.len(),
    ensures
        State::executing(context, codes, last, ending).drive(values_of(values)) == Some(
            State::executing(
                context,
                codes.skip(values.len() as int),
                if values.len() > 0 {
                    values.last()
                } else {
                    last
                },
                ending,
            ),
        ),
    decreases values.len(),
{
    let replies = values_of(values);
    if values.len() == 0 {
        assert(codes.skip(0) =~= codes);
    } else {
        let rest = values.drop_first();
        assert(replies.drop_first() =~= values_of(rest));
        law_program_executes_in_order(context, codes.drop_first(), values[0], ending, rest);
        assert(codes.drop_first().skip(rest.len() as int) =~= codes.skip(values.len() as int));
        if rest.len() > 0 {
            assert(rest.last() == values.last());
        }
    }
}

/// The value of a program is the value of its last code object, or `()` if it has none.
pub proof fn law_program_yields_last_value<H: Host>(
    context: Context<H>,
    codes: Seq<H::Code>,
    values: Seq<Value<H>>,
)
    requires
        values.len() == codes.len(),
    ensures
        State::executing(context, codes, Value::Unit, Ending::Value).drive(
            values_of(values),
        ) == Some(State::ok(OutputView::Value(program_value(values)))),
{
    law_program_executes_in_order(context, codes, Value::Unit, Ending::Value, values);
}

/// The first error ends a program: whatever code objects are left are not executed.
pub proof fn law_first_error_ends_program<H: Host>(
    context: Context<H>,
    codes: Seq<H::Code>,
    last: Value<H>,
    ending: Ending,
    values: Seq<Value<H>>,
    error: Error<H>,
)
    requires
        values.len() < codes.len(),
    ensures
        State::executing(context, codes, last, ending).drive(
            values_of(values).push(Reply::Executed(Err(error))),
        ) == Some(State::<H>::fail(error)),
{
    let tail = seq![Reply::<H>::Executed(Err(error))];
    assert(values_of(values).push(Reply::Executed(Err(error))) =~= values_of(values) + tail);
    law_program_executes_in_order(context, codes, last, ending, values);
    law_work_in_parts(State::executing(context, codes, last, ending), values_of(values), tail);
    reveal_with_fuel(State::drive, 2);
}

/// Expressions are compiled one after another, and the code objects stand in the order of the
/// expressions.
pub proof fn law_program_compiles_in_order<H: Host>(
    context: Context<H>,
    exprs: Seq<Value<H>>,
    done: Seq<H::Code>,
    usage: ProgramUse,
    codes: Seq<H::Code>,
)
    requires
        codes.len() <= exprs.len(),
    ensures
        State::compiling(context, exprs, done, usage).drive(codes_of::<H>(codes)) == Some(
            State::compiling(context, exprs.skip(codes.len() as int), done + codes, usage),
        ),
    decreases codes.len(),
{
    let replies = codes_of::<H>(codes);
    if codes.len() == 0 {
        assert(exprs.skip(0) =~= exprs);
        assert(done + codes =~= done);
    } else {
        let rest = codes.drop_first();
        assert(replies.drop_first() =~= codes_of::<H>(rest));
        let more = done.push(codes[0]);
        law_program_compiles_in_order(context, exprs.drop_first(), more, usage, rest);
        assert(exprs.drop_first().skip(rest.len() as int) =~= exprs.skip(codes.len() as int));
        assert(done.push(codes[0]) + rest =~= done + codes);
    }
}

/// The first expression that does not compile ends the work with its error. No code object has
/// been executed by then, whatever the program is for.
pub proof fn law_compile_error_prevents_execution<H: Host>(
    context: Context<H>,
    exprs: Seq<Value<H>>,
    usage: ProgramUse,
    codes: Seq<H::Code>,
    error: Error<H>,
)
    requires
        codes.len() < exprs.len(),
    ensures
        State::compiling(context, exprs, Seq::empty(), usage).drive(
            codes_of::<H>(codes).push(Reply::Code(Err(error))),
        ) == Some(State::<H>::fail(error)),
{
    let tail = seq![Reply::<H>::Code(Err(error))];
    let start = State::compiling(context, exprs, Seq::empty(), usage);
    assert(codes_of::<H>(codes).push(Reply::Code(Err(error))) =~= codes_of::<H>(codes) + tail);
    law_program_compiles_in_order(context, exprs, Seq::empty(), usage, codes);
    law_work_in_parts(start, codes_of::<H>(codes), tail);
    reveal_with_fuel(State::drive, 2);
}

/// Running a source compiles all of its expressions, then executes the code objects, and
/// results in the value of the last one, or `()` if the source holds no expression.
pub proof fn law_run_code_yields_last_value<H: Host>(
    context: Context<H>,
    input: Seq<char>,
    path: Option<Seq<char>>,
    offset: H::Offset,
    exprs: Seq<Value<H>>,
    codes: Seq<H::Code>,
    values: Seq<Value<H>>,
)
    requires
        codes.len() == exprs.len(),
        values.len() == exprs.len(),
    ensures
        on_program(context, input, path, false, ProgramGoal::Compile(ProgramUse::Run)).drive(
            seq![Reply::Offset(offset), Reply::Exprs(Ok(exprs))] + codes_of::<H>(codes)
                + values_of(values),
        ) == Some(State::ok(OutputView::Value(program_value(values)))),
{
    let start = on_program(context, input, path, false, ProgramGoal::Compile(ProgramUse::Run));
    let parsed = seq![Reply::<H>::Offset(offset), Reply::Exprs(Ok(exprs))];
    let compiled = codes_of::<H>(codes);
    law_work_in_parts(start, parsed + compiled, values_of(values));
    law_work_in_parts(start, parsed, compiled);
    lemma_two_replies(start, parsed);
    law_program_compiles_in_order(context, exprs, Seq::empty(), ProgramUse::Run, codes);
    assert(Seq::<H::Code>::empty() + codes =~= codes);
    law_program_yields_last_value(context, codes, values);
}

/// The state after two replies.
pub(crate) proof fn lemma_two_replies<H: Host>(s: State<H>, replies: Seq<Reply<H>>)
    requires
        replies.len() == 2,
    ensures
        s.drive(replies) == match s.react(replies[0]) {
            Some(next) => next.react(replies[1]),
            None => None,
        },
{
    reveal_with_fuel(State::drive, 3);
    assert(replies.drop_first()[0] == replies[1]);
    assert(replies.drop_first().drop_first().len() == 0);
    if let Some(next) = s.react(replies[0]) {
        if let Some(end) = next.react(replies[1]) {
            assert(end.drive(replies.drop_first().drop_first()) == Some(end));
        }
    }
}

/// The state that work on a single expression for some goal has reached, when the same replies
/// are given as to work on parsing it.
spec fn expr_counterpart<H: Host>(context: Context<H>, s: State<H>, goal: ExprGoal) -> State<H> {
    match s {
        State::Waiting(_, request) => State::Waiting(
            context,
            match request {
                Request::AddSource { input, path, goal: _ } => Request::AddSource {
                    input,
                    path,
                    goal: Goal::Expr(goal),
                },
                Request::ParseSingleExpr { input, offset, goal: _ } => Request::ParseSingleExpr {
                    input,
                    offset,
                    goal,
                },
                _ => request,
            },
        ),
        State::Done(Ok(OutputView::Value(expr))) => State::expr_parsed(context, goal, Ok(expr)),
        State::Done(_) => s,
    }
}

/// Compiling or running a single expression starts with parsing it: where parsing ends with an
/// expression, the same replies lead to compiling that expression, and where parsing ends with
/// an error, they lead to the same error.
pub proof fn law_expr_work_starts_with_parsing<H: Host>(
    context: Context<H>,
    input: Seq<char>,
    path: Option<Seq<char>>,
    goal: ExprGoal,
    replies: Seq<Reply<H>>,
)
    requires
        goal != ExprGoal::Parse,
    ensures
        on_expr(context, input, path, ExprGoal::Parse).drive(replies) matches Some(
            State::Done(Ok(output)),
        ) ==> (output matches OutputView::Value(expr) && on_expr(context, input, path, goal).drive(
            replies,
        ) == Some(
            State::Waiting(
                context,
                (Request::Compile {
                    expr,
                    next: if goal == ExprGoal::Run {
                        CompiledView::Run
                    } else {
                        CompiledView::Return
                    },
                }),
            ),
        )),
        on_expr(context, input, path, ExprGoal::Parse).drive(replies) matches Some(
            State::Done(Err(e)),
        ) ==> on_expr(context, input, path, goal).drive(replies) == Some(State::<H>::fail(e)),
{
    lemma_expr_counterpart(context, on_expr(context, input, path, ExprGoal::Parse), goal, replies);
}

proof fn lemma_expr_counterpart<H: Host>(
    context: Context<H>,
    s: State<H>,
    goal: ExprGoal,
    replies: Seq<Reply<H>>,
)
    requires
        expr_parsing(context, s),
    ensures
        s.drive(replies) matches Some(end) ==> expr_parsing(context, end),
        s.drive(replies) matches Some(end) ==> expr_counterpart(context, s, goal).drive(
            replies,
        ) == Some(expr_counterpart(context, end, goal)),
    decreases replies.len(),
{
    if replies.len() > 0 {
        if let Some(next) = s.react(replies[0]) {
            lemma_expr_counterpart(context, next, goal, replies.drop_first());
        }
    }
}

spec fn expr_parsing<H: Host>(context: Context<H>, s: State<H>) -> bool {
    match s {
        State::Waiting(at, request) => at == context && match request {
            Request::AddSource { goal: Goal::Expr(ExprGoal::Parse), .. } => true,
            Request::ParseSingleExpr { goal: ExprGoal::Parse, .. } => true,
            _ => false,
        },
        State::Done(Ok(OutputView::Value(_))) => true,
        State::Done(Ok(_)) => false,
        State::Done(Err(_)) => true,
    }
}

/// Running a single expression compiles it, then executes the code: where compiling ends with a
/// code object, the same replies lead to executing that object, and where compiling ends with
/// an error, they lead to the same error.
pub proof fn law_run_expr_compiles_then_executes<H: Host>(
    context: Context<H>,
    input: Seq<char>,
    path: Option<Seq<char>>,
    replies: Seq<Reply<H>>,
)
    ensures
        on_expr(context, input, path, ExprGoal::Compile).drive(replies) matches Some(
            State::Done(Ok(output)),
        ) ==> (output matches OutputView::Code(code) && on_expr(
            context,
            input,
            path,
            ExprGoal::Run,
        ).drive(replies) == Some(on_code(context, code))),
        on_expr(context, input, path, ExprGoal::Compile).drive(replies) matches Some(
            State::Done(Err(e)),
        ) ==> on_expr(context, input, path, ExprGoal::Run).drive(replies) == Some(
            State::<H>::fail(e),
        ),
{
    lemma_run_counterpart(context, on_expr(context, input, path, ExprGoal::Compile), replies);
}

/// The state that work on running a single expression has reached, when the same replies are
/// given as to work on compiling it.
spec fn run_counterpart<H: Host>(context: Context<H>, s: State<H>) -> State<H> {
    match s {
        State::Waiting(_, request) => State::Waiting(
            context,
            match request {
                Request::AddSource { input, path, goal: _ } => Request::AddSource {
                    input,
                    path,
                    goal: Goal::Expr(ExprGoal::Run),
                },
                Request::ParseSingleExpr { input, offset, goal: _ } => Request::ParseSingleExpr {
                    input,
                    offset,
                    goal: ExprGoal::Run,
                },
                Request::Compile { expr, next: _ } => Request::Compile {
                    expr,
                    next: CompiledView::Run,
                },
                _ => request,
            },
        ),
        State::Done(Ok(OutputView::Code(code))) => on_code(context, code),
        State::Done(_) => s,
    }
}

spec fn expr_compiling<H: Host>(context: Context<H>, s: State<H>) -> bool {
    match s {
        State::Waiting(at, request) => at == context && match request {
            Request::AddSource { goal: Goal::Expr(ExprGoal::Compile), .. } => true,
            Request::ParseSingleExpr { goal: ExprGoal::Compile, .. } => true,
            Request::Compile { next: CompiledView::Return, .. } => true,
            _ => false,
        },
        State::Done(Ok(OutputView::Code(_))) => true,
        State::Done(Ok(_)) => false,
        State::Done(Err(_)) => true,
    }
}

proof fn lemma_run_counterpart<H: Host>(
    context: Context<H>,
    s: State<H>,
    replies: Seq<Reply<H>>,
)
    requires
        expr_compiling(context, s),
    ensures
        s.drive(replies) matches Some(end) ==> expr_compiling(context, end),
        s.drive(replies) matches Some(end) ==> run_counterpart(context, s).drive(
            replies,
        ) == Some(run_counterpart(context, end)),
    decreases replies.len(),
{
    if replies.len() > 0 {
        if let Some(next) = s.react(replies[0]) {
            lemma_run_counterpart(context, next, replies.drop_first());
        }
    }
}

/// Compiling a source starts with parsing it: where parsing ends with expressions, the same
/// replies lead to compiling them, and where parsing ends with an error, they lead to the same
/// error.
pub proof fn law_program_work_starts_with_parsing<H: Host>(
    context: Context<H>,
    input: Seq<char>,
    path: Option<Seq<char>>,
    skip_shebang: bool,
    usage: ProgramUse,
    replies: Seq<Reply<H>>,
)
    ensures
        on_program(context, input, path, skip_shebang, ProgramGoal::Parse).drive(
            replies,
        ) matches Some(
            State::Done(Ok(output)),
        ) ==> (output matches OutputView::Exprs(exprs) && on_program(
            context,
            input,
            path,
            skip_shebang,
            ProgramGoal::Compile(usage),
        ).drive(replies) == Some(State::compiling(context, exprs, Seq::empty(), usage))),
        on_program(context, input, path, skip_shebang, ProgramGoal::Parse).drive(
            replies,
        ) matches Some(
            State::Done(Err(e)),
        ) ==> on_program(context, input, path, skip_shebang, ProgramGoal::Compile(usage)).drive(
            replies,
        ) == Some(State::<H>::fail(e)),
{
    lemma_parse_counterpart(
        context,
        on_program(context, input, path, skip_shebang, ProgramGoal::Parse),
        usage,
        replies,
    );
}

/// The state that work on compiling a source has reached, when the same replies are given as to
/// work on parsing it.
spec fn parse_counterpart<H: Host>(
    context: Context<H>,
    s: State<H>,
    usage: ProgramUse,
) -> State<H> {
    match s {
        State::Waiting(_, request) => State::Waiting(context, with_usage(request, usage)),
        State::Done(Ok(OutputView::Exprs(exprs))) => State::compiling(
            context,
            exprs,
            Seq::empty(),
            usage,
        ),
        State::Done(_) => s,
    }
}

/// A request in the work on a program, with another use of the program.
spec fn with_usage<H: Host>(request: Request<H>, usage: ProgramUse) -> Request<H> {
    match request {
        Request::AddSource { input, path, goal: Goal::Program { skip_shebang, goal: _ } } =>
            Request::AddSource {
                input,
                path,
                goal: Goal::Program { skip_shebang, goal: ProgramGoal::Compile(usage) },
            },
        Request::ParseExprs { input, offset, skip_shebang, goal: _ } => Request::ParseExprs {
            input,
            offset,
            skip_shebang,
            goal: ProgramGoal::Compile(usage),
        },
        Request::Compile { expr, next: CompiledView::Collect { rest, done, usage: _ } } =>
            Request::Compile { expr, next: CompiledView::Collect { rest, done, usage } },
        _ => request,
    }
}

spec fn program_parsing<H: Host>(context: Context<H>, s: State<H>) -> bool {
    match s {
        State::Waiting(at, request) => at == context && match request {
            Request::AddSource { goal: Goal::Program { goal: ProgramGoal::Parse, .. }, .. } => true,
            Request::ParseExprs { goal: ProgramGoal::Parse, .. } => true,
            _ => false,
        },
        State::Done(Ok(OutputView::Exprs(_))) => true,
        State::Done(Ok(_)) => false,
        State::Done(Err(_)) => true,
    }
}

proof fn lemma_parse_counterpart<H: Host>(
    context: Context<H>,
    s: State<H>,
    usage: ProgramUse,
    replies: Seq<Reply<H>>,
)
    requires
        program_parsing(context, s),
    ensures
        s.drive(replies) matches Some(end) ==> program_parsing(context, end),
        s.drive(replies) matches Some(end) ==> parse_counterpart(context, s, usage).drive(
            replies,
        ) == Some(parse_counterpart(context, end, usage)),
    decreases replies.len(),
{
    if replies.len() > 0 {
        if let Some(next) = s.react(replies[0]) {
            lemma_parse_counterpart(context, next, usage, replies.drop_first());
        }
    }
}

/// Running a source compiles it, then executes the program: where compiling ends with code
/// objects, the same replies lead to executing those objects, and where compiling ends with an
/// error, they lead to the same error.
pub proof fn law_run_code_compiles_then_executes<H: Host>(
    context: Context<H>,
    input: Seq<char>,
    path: Option<Seq<char>>,
    skip_shebang: bool,
    usage: ProgramUse,
    replies: Seq<Reply<H>>,
)
    ensures
        on_program(
            context,
            input,
            path,
            skip_shebang,
            ProgramGoal::Compile(ProgramUse::Return),
        ).drive(replies) matches Some(State::Done(Ok(output))) ==> (output matches
            OutputView::Program(codes) && on_program(
            context,
            input,
            path,
            skip_shebang,
            ProgramGoal::Compile(usage),
        ).drive(replies) == Some(State::program_ready(context, codes, usage))),
        on_program(
            context,
            input,
            path,
            skip_shebang,
            ProgramGoal::Compile(ProgramUse::Return),
        ).drive(replies) matches Some(State::Done(Err(e))) ==> on_program(
            context,
            input,
            path,
            skip_shebang,
            ProgramGoal::Compile(usage),
        ).drive(replies) == Some(State::<H>::fail(e)),
{
    lemma_compile_counterpart(
        context,
        on_program(context, input, path, skip_shebang, ProgramGoal::Compile(ProgramUse::Return)),
        usage,
        replies,
    );
}

/// The state that work on a program for some use has reached, when the same replies are given
/// as to work on compiling it.
spec fn compile_counterpart<H: Host>(
    context: Context<H>,
    s: State<H>,
    usage: ProgramUse,
) -> State<H> {
    match s {
        State::Waiting(_, request) => State::Waiting(context, with_usage(request, usage)),
        State::Done(Ok(OutputView::Program(codes))) => State::program_ready(context, codes, usage),
        State::Done(_) => s,
    }
}

spec fn program_compiling<H: Host>(context: Context<H>, s: State<H>) -> bool {
    match s {
        State::Waiting(at, request) => at == context && match request {
            Request::AddSource {
                goal: Goal::Program { goal: ProgramGoal::Compile(ProgramUse::Return), .. },
                ..
            } => true,
            Request::ParseExprs { goal: ProgramGoal::Compile(ProgramUse::Return), .. } => true,
            Request::Compile {
                next: CompiledView::Collect { usage: ProgramUse::Return, .. },
                ..
            } => true,
            _ => false,
        },
        State::Done(Ok(OutputView::Program(_))) => true,
        State::Done(Ok(_)) => false,
        State::Done(Err(_)) => true,
    }
}

proof fn lemma_compile_counterpart<H: Host>(
    context: Context<H>,
    s: State<H>,
    usage: ProgramUse,
    replies: Seq<Reply<H>>,
)
    requires
        program_compiling(context, s),
    ensures
        s.drive(replies) matches Some(end) ==> program_compiling(context, end),
        s.drive(replies) matches Some(end) ==> compile_counterpart(context, s, usage).drive(
            replies,
        ) == Some(compile_counterpart(context, end, usage)),
    decreases replies.len(),
{
    if replies.len() > 0 {
        if let Some(next) = s.react(replies[0]) {
            lemma_compile_counterpart(context, next, usage, replies.drop_first());
        }
    }
}

/// The path of a source only names it in the code map: where the source starts there, and what
/// is done with it, is all that the work goes on with.
pub proof fn law_path_only_names_source<H: Host>(
    context: Context<H>,
    input: Seq<char>,
    path: Option<Seq<char>>,
    other: Option<Seq<char>>,
    goal: Goal,
    replies: Seq<Reply<H>>,
)
    requires
        replies.len() > 0,
    ensures
        State::Waiting(context, (Request::AddSource { input, path, goal })).drive(replies)
            == State::Waiting(context, (Request::AddSource { input, path: other, goal })).drive(
            replies,
        ),
{
}

/// Passing over a shebang line is left to the parser: the whole source is added to the code map
/// and handed to the parser either way, and from the parser's reply on the work is the same.
pub proof fn law_shebang_is_left_to_parser<H: Host>(
    context: Context<H>,
    input: Seq<char>,
    path: Option<Seq<char>>,
    goal: ProgramGoal,
    offset: H::Offset,
    replies: Seq<Reply<H>>,
)
    ensures
        forall|skip_shebang: bool| #[trigger]
            on_program(context, input, path, skip_shebang, goal).drive(
                seq![Reply::Offset(offset)],
            ) == Some(
                State::Waiting(
                    context,
                    (Request::ParseExprs { input, offset, skip_shebang, goal }),
                ),
            ),
        replies.len() > 1 ==> on_program(context, input, path, true, goal).drive(replies)
            == on_program(context, input, path, false, goal).drive(replies),
{
    reveal_with_fuel(State::drive, 3);
    if replies.len() > 1 {
        assert(replies.drop_first()[0] == replies[1]);
    }
}

/// A parse error is reported as it was found: a source is parsed at the offset that the code map
/// gave for it, the parser's error ends the work unchanged, and displaying that error asks for
/// its own span in the same context and prints what comes back.
pub proof fn law_parse_error_is_reported_as_found<H: Host>(
    context: Context<H>,
    input: Seq<char>,
    path: Option<Seq<char>>,
    skip_shebang: bool,
    goal: ProgramGoal,
    offset: H::Offset,
    error: ParseError<H>,
    hi: HighlightView,
    kind: Seq<char>,
)
    ensures
        on_program(context, input, path, skip_shebang, goal).react(Reply::Offset(offset)) == Some(
            State::Waiting(context, (Request::ParseExprs { input, offset, skip_shebang, goal })),
        ),
        on_program(context, input, path, skip_shebang, goal).drive(
            seq![Reply::Offset(offset), Reply::Exprs(Err(Error::ParseError(error)))],
        ) == Some(State::<H>::fail(Error::ParseError(error))),
        on_error(context, Error::ParseError(error)) == State::Waiting(
            context,
            (Request::HighlightSpan { error }),
        ),
        on_error(context, Error::ParseError(error)).react(Reply::Highlighted(hi, kind)) == Some(
            State::<H>::printing(context, Stream::Stderr, parse_error_lines(hi, kind)),
        ),
{
    lemma_two_replies(
        on_program(context, input, path, skip_shebang, goal),
        seq![Reply::Offset(offset), Reply::Exprs(Err(Error::ParseError(error)))],
    );
}

/// Setting the arguments and clearing the code map are one request each: the whole list under
/// the one name, whatever the list, and all sources. Nothing else is asked of the engine.
pub proof fn law_set_args_and_clear_are_one_request<H: Host>(
    context: Context<H>,
    strings: Seq<Seq<char>>,
    reply: Reply<H>,
)
    ensures
        ({
            let args = State::<H>::Waiting(
                context,
                (Request::AddNamedValue { name: "argv"@, strings }),
            );
            let clear = State::<H>::Waiting(context, Request::ClearCodeMap);
            &&& args.react(Reply::Ack) == Some(State::<H>::ok(OutputView::Unit))
            &&& clear.react(Reply::Ack) == Some(State::<H>::ok(OutputView::Unit))
            &&& !(reply is Ack) ==> args.react(reply) is None && clear.react(reply) is None
        }),
{
}

/// A file that cannot be opened ends the work with an error that names the file and the
/// attempt.
pub proof fn law_unopened_file_is_reported<H: Host>(
    context: Context<H>,
    path: PathBuf,
    err: std::io::Error,
)
    ensures
        State::<H>::Waiting(context, (Request::OpenFile { path })).drive(
            seq![Reply::Opened(Err(err))],
        ) == Some(
            State::<H>::fail(Error::IoError(IoError { mode: IoMode::Open, path, err })),
        ),
{
    reveal_with_fuel(State::drive, 2);
}

/// A file that cannot be read ends the work with an error that names the file and the attempt.
pub proof fn law_unread_file_is_reported<H: Host>(
    context: Context<H>,
    path: PathBuf,
    err: std::io::Error,
)
    ensures
        State::<H>::Waiting(context, (Request::OpenFile { path })).drive(
            seq![Reply::Opened(Ok(())), Reply::Read(Err(err))],
        ) == Some(State::<H>::fail(Error::IoError(IoError { mode: IoMode::Read, path, err }))),
{
    lemma_two_replies(
        State::<H>::Waiting(context, Request::OpenFile { path }),
        seq![Reply::Opened(Ok(())), Reply::Read(Err(err))],
    );
}

/// A file that can be read is run under the text of its path, without its shebang line: its
/// expressions are compiled, then the code objects are executed, then `main` is looked for.
pub proof fn law_run_file_executes_then_finds_main<H: Host>(
    context: Context<H>,
    path: PathBuf,
    input: Seq<char>,
    offset: H::Offset,
    exprs: Seq<Value<H>>,
    codes: Seq<H::Code>,
    values: Seq<Value<H>>,
)
    requires
        codes.len() == exprs.len(),
        values.len() == exprs.len(),
    ensures
        State::<H>::Waiting(context, (Request::OpenFile { path })).drive(
            seq![Reply::Opened(Ok(())), Reply::Read(Ok(input))],
        ) == Some(
            on_program(
                context,
                input,
                Some(path_text(path)),
                true,
                ProgramGoal::Compile(ProgramUse::RunMain),
            ),
        ),
        State::<H>::Waiting(context, (Request::OpenFile { path })).drive(
            seq![Reply::Opened(Ok(())), Reply::Read(Ok(input))] + (seq![
                Reply::Offset(offset),
                Reply::Exprs(Ok(exprs)),
            ] + (codes_of::<H>(codes) + values_of(values))),
        ) == Some(
            State::Waiting(
                context,
                (Request::GetNamedValue { name: "main"@, lookup: Lookup::CallMain }),
            ),
        ),
{
    let start = State::<H>::Waiting(context, Request::OpenFile { path });
    let opened = seq![Reply::<H>::Opened(Ok(())), Reply::Read(Ok(input))];
    let parsed = seq![Reply::<H>::Offset(offset), Reply::Exprs(Ok(exprs))];
    let compiled = codes_of::<H>(codes);
    let source = on_program(
        context,
        input,
        Some(path_text(path)),
        true,
        ProgramGoal::Compile(ProgramUse::RunMain),
    );
    let usage = ProgramUse::RunMain;
    lemma_two_replies(start, opened);
    law_work_in_parts(start, opened, parsed + (compiled + values_of(values)));
    lemma_two_replies(source, parsed);
    law_work_in_parts(source, parsed, compiled + values_of(values));
    law_work_in_parts(
        State::compiling(context, exprs, Seq::empty(), usage),
        compiled,
        values_of(values),
    );
    law_program_compiles_in_order(context, exprs, Seq::empty(), usage, codes);
    assert(Seq::<H::Code>::empty() + codes =~= codes);
    law_program_executes_in_order(context, codes, Value::Unit, Ending::Main, values);
}

/// A file without a `main` is done when its code objects are. One with a `main` is done when
/// that has been called without arguments; what it returns is dropped, and its error is not.
pub proof fn law_main_is_called_if_present<H: Host>(
    context: Context<H>,
    value: Value<H>,
    reply: Result<Value<H>, Error<H>>,
)
    ensures
        ({
            let found = State::Waiting(
                context,
                (Request::GetNamedValue { name: "main"@, lookup: Lookup::CallMain }),
            );
            let call = State::Waiting(
                context,
                (Request::CallFunction {
                    value,
                    args: Seq::empty(),
                    returned: Returned::Discard,
                }),
            );
            &&& found.react(Reply::Found(None)) == Some(State::<H>::ok(OutputView::Unit))
            &&& found.react(Reply::Found(Some(value))) == Some(call)
            &&& call.react(Reply::Called(reply)) == Some(
                match reply {
                    Ok(_) => State::<H>::ok(OutputView::Unit),
                    Err(e) => State::<H>::fail(e),
                },
            )
        }),
{
}

/// Calling a name that has no value ends with an error that names it.
pub proof fn law_call_of_undefined_name_fails<H: Host>(
    context: Context<H>,
    text: Seq<char>,
    args: Seq<Value<H>>,
    name: H::Name,
)
    ensures
        State::Waiting(context, (Request::AddName { name: text, args })).drive(
            seq![Reply::Name(name), Reply::Found(None)],
        ) == Some(State::<H>::fail(Error::ExecError(ExecError::NameError(name)))),
{
    lemma_two_replies(
        State::Waiting(context, Request::AddName { name: text, args }),
        seq![Reply::Name(name), Reply::Found(None)],
    );
}

/// Calling a name that has a value is calling the value with the same arguments.
pub proof fn law_call_of_defined_name_calls_value<H: Host>(
    context: Context<H>,
    text: Seq<char>,
    args: Seq<Value<H>>,
    name: H::Name,
    value: Value<H>,
)
    ensures
        State::Waiting(context, (Request::AddName { name: text, args })).drive(
            seq![Reply::Name(name), Reply::Found(Some(value))],
        ) == Some(
            State::Waiting(
                context,
                (Request::CallFunction { value, args, returned: Returned::Keep }),
            ),
        ),
{
    lemma_two_replies(
        State::Waiting(context, Request::AddName { name: text, args }),
        seq![Reply::Name(name), Reply::Found(Some(value))],
    );
}

/// Whether a state belongs to showing something on a stream.
pub open spec fn showing<H: Host>(s: State<H>, stream: Stream) -> bool {
    match s {
        State::Waiting(_, request) => match request {
            Request::DisplayNames { .. } => stream == Stream::Stderr,
            Request::HighlightSpan { .. } => stream == Stream::Stderr,
            Request::Describe { .. } => stream == Stream::Stderr,
            Request::DebugNames { value: _, print } => print && stream == Stream::Stdout,
            Request::Print { stream: to, lines: _ } => to == stream,
            _ => false,
        },
        State::Done(Ok(OutputView::Unit)) => true,
        State::Done(_) => false,
    }
}

/// Showing something does not fail and does nothing else: whatever the replies, the work stays
/// within showing on the one stream, and ends without a result.
pub proof fn law_showing_does_not_fail<H: Host>(
    s: State<H>,
    stream: Stream,
    replies: Seq<Reply<H>>,
)
    requires
        showing(s, stream),
    ensures
        s.drive(replies) matches Some(end) ==> showing(end, stream),
    decreases replies.len(),
{
    if replies.len() > 0 {
        if let Some(next) = s.react(replies[0]) {
            law_showing_does_not_fail(next, stream, replies.drop_first());
        }
    }
}

/// Every error and every traceback is shown on the standard error output.
pub proof fn law_errors_go_to_stderr<H: Host>(context: Context<H>, e: Error<H>, trace: H::Trace)
    ensures
        showing(on_error(context, e), Stream::Stderr),
        showing(
            State::<H>::Waiting(
                context,
                (Request::DisplayNames { item: NamedView::Trace(trace) }),
            ),
            Stream::Stderr,
        ),
{
}

/// Displaying a value prints, as one line, the text that formatting it results in.
pub proof fn law_display_value_prints_format<H: Host>(
    context: Context<H>,
    value: Value<H>,
    text: Seq<char>,
)
    ensures
        State::Waiting(context, (Request::DebugNames { value, print: false })).react(
            Reply::Shown(text),
        ) == Some(State::<H>::ok(OutputView::Text(text))),
        State::Waiting(context, (Request::DebugNames { value, print: true })).react(
            Reply::Shown(text),
        ) == Some(State::printing(context, Stream::Stdout, seq![text])),
{
}

/// A builder never holds two parameters that exclude each other, in whichever order they were
/// tried: a scope and a module loader among them, and a context and anything but I/O handles.
pub proof fn law_exclusive_settings<H: Host>(settings: Settings<H>)
    requires
        settings.compatible(),
    ensures
        settings.has(Setting::Scope) ==> !settings.has(Setting::Name) && !settings.has(
            Setting::ModuleLoader,
        ) && !settings.has(Setting::SearchPaths),
        settings.has(Setting::Context) ==> !settings.has(Setting::Name) && !settings.has(
            Setting::Scope,
        ) && !settings.has(Setting::Restrict) && !settings.has(Setting::ModuleLoader)
            && !settings.has(Setting::SearchPaths),
        !(settings.has(Setting::ModuleLoader) && settings.has(Setting::SearchPaths)),
{
    lemma_exclusions();
}

/// The exclusions are mutual, with five exceptions, in which one order of the two calls is
/// accepted: a restriction may come before a scope, a module loader or search paths, and I/O
/// handles before a context or a scope.
pub proof fn law_exclusions_are_mutual_but_five(a: Setting, b: Setting)
    ensures
        a.excluded().contains(b) && !b.excluded().contains(a) <==> {
            ||| a == Setting::Restrict && b == Setting::Scope
            ||| a == Setting::Restrict && b == Setting::ModuleLoader
            ||| a == Setting::Restrict && b == Setting::SearchPaths
            ||| a == Setting::Io && b == Setting::Context
            ||| a == Setting::Io && b == Setting::Scope
        },
{
    lemma_exclusions();
}

proof fn lemma_exclusions()
    ensures
        forall|s: Setting| #[trigger]
            Setting::Name.excluded().contains(s) <==> s == Setting::Context || s == Setting::Scope,
        forall|s: Setting| #[trigger]
            Setting::Context.excluded().contains(s) <==> s != Setting::Context && s != Setting::Io,
        forall|s: Setting| #[trigger]
            Setting::Scope.excluded().contains(s) <==> s == Setting::Name || s == Setting::Context
                || s == Setting::ModuleLoader || s == Setting::SearchPaths,
        forall|s: Setting| #[trigger]
            Setting::Restrict.excluded().contains(s) <==> s == Setting::Context || s
                == Setting::Scope || s == Setting::ModuleLoader || s == Setting::SearchPaths,
        forall|s: Setting| #[trigger]
            Setting::Io.excluded().contains(s) <==> s == Setting::Context || s == Setting::Scope,
        forall|s: Setting| #[trigger]
            Setting::ModuleLoader.excluded().contains(s) <==> s == Setting::Context || s
                == Setting::Scope || s == Setting::SearchPaths,
        forall|s: Setting| #[trigger]
            Setting::SearchPaths.excluded().contains(s) <==> s == Setting::Context || s
                == Setting::Scope || s == Setting::ModuleLoader,
{
    let a = Setting::Name.excluded();
    assert(a[0] == Setting::Context && a[1] == Setting::Scope);
    let b = Setting::Context.excluded();
    assert(b[0] == Setting::Name && b[1] == Setting::Scope && b[2] == Setting::Restrict && b[3]
        == Setting::ModuleLoader && b[4] == Setting::SearchPaths);
    let c = Setting::Scope.excluded();
    assert(c[0] == Setting::Name && c[1] == Setting::Context && c[2] == Setting::ModuleLoader
        && c[3] == Setting::SearchPaths);
    let d = Setting::Restrict.excluded();
    assert(d[0] == Setting::Context && d[1] == Setting::Scope && d[2] == Setting::ModuleLoader
        && d[3] == Setting::SearchPaths);
    let e = Setting::Io.excluded();
    assert(e[0] == Setting::Context && e[1] == Setting::Scope);
    let f = Setting::ModuleLoader.excluded();
    assert(f[0] == Setting::Context && f[1] == Setting::Scope && f[2] == Setting::SearchPaths);
    let g = Setting::SearchPaths.excluded();
    assert(g[0] == Setting::Context && g[1] == Setting::Scope && g[2] == Setting::ModuleLoader);
}

/// A builder with one parameter or none starts as the matching constructor of `Interpreter`
/// does.
pub proof fn law_builder_agrees_with_constructors<H: Host>(
    context: Context<H>,
    scope: H::Scope,
    loader: ModuleLoader<H>,
    paths: Vec<PathBuf>,
)
    ensures
        Settings::<H>::none().setup() == main_setup::<H>(ModuleLoader::Builtin),
        (Settings { context: Some(context), ..Settings::none() }).setup() == SetupState::Ready(
            context,
        ),
        (Settings { scope: Some(scope), ..Settings::<H>::none() }).setup()
            == (SetupState::<H>::NewContext { scope, restrict: RestrictConfig::Permissive }),
        (Settings { module_loader: Some(loader), ..Settings::none() }).setup() == main_setup(
            loader,
        ),
        (Settings { search_paths: Some(paths), ..Settings::<H>::none() }).setup()
            == main_setup::<H>(ModuleLoader::BuiltinThenFiles(paths)),
{
}

/// A scope that is made from a plan has parts of its own: the engine is asked for a new name
/// store, for the planned name in that store, for a new code map and for a registry of the
/// planned loader, and the scope is made from those very parts and the planned handles.
pub proof fn law_scope_is_made_from_its_own_parts<H: Host>(
    plan: ScopePlan<H>,
    restrict: RestrictConfig<H>,
    names: H::Names,
    name: H::Name,
    codemap: H::CodeMap,
    modules: H::Modules,
)
    ensures
        (SetupState::NewNames { plan, restrict }).made_all(seq![Part::Names(names)]) == Some(
            (SetupState::AddScopeName { names, plan, restrict }),
        ),
        (SetupState::NewNames { plan, restrict }).made_all(
            seq![Part::Names(names), Part::Name(name), Part::CodeMap(codemap)],
        ) == Some(
            (SetupState::NewModules {
                name,
                names,
                codemap,
                loader: plan.loader,
                io: plan.io,
                restrict,
            }),
        ),
        (SetupState::NewNames { plan, restrict }).made_all(
            seq![
                Part::Names(names),
                Part::Name(name),
                Part::CodeMap(codemap),
                Part::Modules(modules),
            ],
        ) == Some(
            (SetupState::NewScope {
                global: GlobalScope { name, names, codemap, modules, io: plan.io },
                restrict,
            }),
        ),
{
    reveal_with_fuel(SetupState::made_all, 5);
}

/// A scope is made from nothing unless a scope or a context was given: the first thing that is
/// asked for is then a new name store. With a scope, only a context is asked for, and with a
/// context nothing is.
pub proof fn law_setup_starts_with_new_names<H: Host>(settings: Settings<H>)
    ensures
        settings.setup() is NewNames <==> settings.context is None && settings.scope is None,
        settings.setup() is NewContext <==> settings.context is None && settings.scope is Some,
        settings.setup() is Ready <==> settings.context is Some,
{
}

/// The interpreter that is made has the context that the builder was given, or else the scope
/// that it was given or that the engine made, and the context that the engine made.
pub proof fn law_setup_yields_what_was_given<H: Host>(
    settings: Settings<H>,
    names: H::Names,
    name: H::Name,
    codemap: H::CodeMap,
    modules: H::Modules,
    scope: H::Scope,
    handle: H::Context,
)
    ensures
        settings.context matches Some(context) ==> settings.setup() == SetupState::Ready(context),
        settings.context is None && settings.scope is Some ==> settings.setup().made_all(
            seq![Part::Context(handle)],
        ) == Some(SetupState::<H>::Ready((Context { scope: settings.scope->0, handle }))),
        settings.context is None && settings.scope is None ==> settings.setup().made_all(
            seq![
                Part::Names(names),
                Part::Name(name),
                Part::CodeMap(codemap),
                Part::Modules(modules),
                Part::Scope(scope),
                Part::Context(handle),
            ],
        ) == Some(SetupState::<H>::Ready((Context { scope, handle }))),
{
    reveal_with_fuel(SetupState::made_all, 7);
}

} // verus!
