use ketos::context::Context;
use ketos::host::{Error, ExecError, Host, IoMode, ParseError, Value};
use ketos::interpreter::Interpreter;
use ketos::model::Stream;
use ketos::step::{Named, Output, Step};
use ketos::text::Highlight;
use std::path::PathBuf;
use std::rc::Rc;

struct Toy;

impl Host for Toy {
    type Context = u32;
    type Scope = u32;
    type Names = u32;
    type CodeMap = u32;
    type Modules = u32;
    type RestrictConfig = u32;
    type GlobalIo = u32;
    type ModuleLoader = u32;
    type Name = u32;
    type Value = i64;
    type Code = i64;
    type Offset = usize;
    type Span = u32;
    type ParseErrorKind = u32;
    type CompileError = String;
    type ExecError = String;
    type Error = String;
    type Trace = u32;
}

/// An engine whose expressions are numbers. Compiling adds 100; executing takes it off again and
/// doubles the number. The word `bad` does not parse, -1 does not compile, and -2 does not
/// execute.
struct Engine {
    main: Option<i64>,
    log: Vec<String>,
}

fn engine() -> Engine {
    Engine { main: None, log: Vec::new() }
}

fn interpreter() -> Interpreter<Toy> {
    in_context(1, 2)
}

fn in_context(scope: u32, handle: u32) -> Interpreter<Toy> {
    Interpreter::with_context(Context { scope, handle })
}

fn number(value: &Value<Toy>) -> i64 {
    match value {
        Value::Unit => 0,
        Value::Other(n) => *n,
    }
}

impl Engine {
    fn parse(&self, text: &str) -> Result<Vec<Value<Toy>>, Error<Toy>> {
        let mut exprs = Vec::new();
        for word in text.split_whitespace() {
            match word.parse() {
                Ok(n) => exprs.push(Value::Other(n)),
                Err(_) => return Err(Error::ParseError(ParseError { span: 3, kind: 9 })),
            }
        }
        Ok(exprs)
    }

    fn run(&mut self, first: Step<Toy>) -> Result<Output<Toy>, Error<Toy>> {
        let mut step = first;
        loop {
            step = match step {
                Step::AddSource(s) => {
                    self.log.push(format!("source {:?} {:?}", s.input, s.path));
                    s.resume(40)
                }
                Step::ParseSingleExpr(s) => {
                    self.log.push(format!("parse-one {:?} at {}", s.input, s.offset));
                    let reply = match self.parse(&s.input) {
                        Ok(mut exprs) if exprs.len() == 1 => Ok(exprs.remove(0)),
                        Ok(_) => Err(Error::Other("not one".to_string())),
                        Err(e) => Err(e),
                    };
                    s.resume(reply)
                }
                Step::ParseExprs(s) => {
                    self.log.push(format!(
                        "parse {:?} at {} shebang {}",
                        s.input, s.offset, s.skip_shebang
                    ));
                    let reply = self.parse(&s.input);
                    s.resume(reply)
                }
                Step::Compile(s) => {
                    let n = number(&s.expr);
                    self.log.push(format!("compile {}", n));
                    s.resume(if n == -1 {
                        Err(Error::CompileError("no code".to_string()))
                    } else {
                        Ok(n + 100)
                    })
                }
                Step::Execute(s) => {
                    self.log.push(format!("execute {}", s.code));
                    s.next.resume(if *s.code == 98 {
                        Err(Error::ExecError(ExecError::Other("stuck".to_string())))
                    } else {
                        Ok(Value::Other((*s.code - 100) * 2))
                    })
                }
                Step::AddName(s) => {
                    self.log.push(format!("intern {}", s.name));
                    let id = s.name.len() as u32;
                    s.resume(id)
                }
                Step::GetValue(s) => {
                    self.log.push(format!("get {}", s.name));
                    let found = if s.name == 3 { Some(Value::Other(50)) } else { None };
                    s.resume(found)
                }
                Step::GetNamedValue(s) => {
                    self.log.push(format!("get-named {}", s.name));
                    let found = self.main.map(Value::Other);
                    s.resume(found)
                }
                Step::CallFunction(s) => {
                    let args: Vec<i64> = s.args.iter().map(number).collect();
                    self.log.push(format!("call {} {:?}", number(&s.value), args));
                    s.next.resume(if number(&s.value) == -3 {
                        Err(Error::ExecError(ExecError::Other("no function".to_string())))
                    } else {
                        Ok(Value::Other(number(&s.value) + args.iter().sum::<i64>()))
                    })
                }
                Step::AddNamedValue(s) => {
                    self.log.push(format!("define {} {:?}", s.name, s.strings));
                    s.resume()
                }
                Step::ClearCodeMap(s) => {
                    self.log.push("clear".to_string());
                    s.resume()
                }
                Step::DisplayNames(s) => {
                    let text = match s.item {
                        Named::CompileError(e) => e.clone(),
                        Named::ExecError(ExecError::NameError(n)) => format!("no name {}", n),
                        Named::ExecError(ExecError::Other(e)) => e.clone(),
                        Named::Trace(t) => format!("trace {}", t),
                    };
                    s.resume(text)
                }
                Step::HighlightSpan(s) => {
                    let hi = Highlight {
                        filename: None,
                        line: 120,
                        col: s.error.span as usize,
                        source: "(foo".to_string(),
                        highlight: "   ^".to_string(),
                    };
                    let kind = format!("kind {}", s.error.kind);
                    s.resume(hi, kind)
                }
                Step::Describe(s) => {
                    let text = match s.error {
                        Error::IoError(e) => format!("{:?} {}", e.mode, e.path.display()),
                        Error::Other(e) => e.clone(),
                        _ => panic!("an error with names"),
                    };
                    s.resume("trouble".to_string(), text)
                }
                Step::DebugNames(s) => {
                    let text = format!("<{}>", number(s.value));
                    s.resume(text)
                }
                Step::Print(s) => {
                    for line in &s.lines {
                        self.log.push(format!("{:?} {}", s.stream, line));
                    }
                    s.resume()
                }
                Step::OpenFile(_) | Step::ReadFile(_) => panic!("no files here"),
                Step::Done(result) => return result,
            };
        }
    }
}

fn value(result: Result<Output<Toy>, Error<Toy>>) -> Option<i64> {
    match result {
        Ok(Output::Value(Value::Unit)) => None,
        Ok(Output::Value(Value::Other(n))) => Some(n),
        _ => panic!("not a value"),
    }
}

fn not_found() -> std::io::Error {
    std::io::Error::from(std::io::ErrorKind::NotFound)
}

#[test]
fn run_code_compiles_all_then_executes_all() {
    let mut e = engine();
    let interp = interpreter();
    let r = e.run(interp.run_code("1 2 3", Some("a.ket".to_string())));
    assert_eq!(value(r), Some(6));
    assert_eq!(
        e.log,
        vec![
            "source \"1 2 3\" Some(\"a.ket\")",
            "parse \"1 2 3\" at 40 shebang false",
            "compile 1",
            "compile 2",
            "compile 3",
            "execute 101",
            "execute 102",
            "execute 103",
        ]
    );
}

#[test]
fn run_code_of_nothing_is_unit() {
    assert_eq!(value(engine().run(interpreter().run_code("", None))), None);
}

#[test]
fn empty_program_is_unit() {
    assert_eq!(value(engine().run(interpreter().execute_program(vec![]))), None);
}

#[test]
fn program_yields_last_value() {
    let step = interpreter().execute_program(vec![104, 107]);
    assert_eq!(value(engine().run(step)), Some(14));
}

#[test]
fn first_execution_error_ends_program() {
    let mut e = engine();
    let r = e.run(interpreter().execute_program(vec![101, 98, 103]));
    assert!(matches!(r, Err(Error::ExecError(ExecError::Other(_)))));
    assert_eq!(e.log, vec!["execute 101", "execute 98"]);
}

#[test]
fn compile_error_prevents_execution() {
    let mut e = engine();
    let r = e.run(interpreter().run_code("1 -1 2", None));
    assert!(matches!(r, Err(Error::CompileError(_))));
    assert_eq!(e.log[2..], ["compile 1", "compile -1"]);
}

#[test]
fn parse_error_prevents_compilation() {
    let mut e = engine();
    let r = e.run(interpreter().run_code("1 bad", None));
    assert!(matches!(r, Err(Error::ParseError(ParseError { span: 3, kind: 9 }))));
    assert_eq!(e.log.len(), 2);
}

#[test]
fn execute_runs_one_code_object() {
    let interp = interpreter();
    assert_eq!(value(engine().run(interp.execute(105))), Some(10));
    assert_eq!(value(engine().run(interp.execute_code(Rc::new(106)))), Some(12));
}

#[test]
fn single_expression_parsed_compiled_and_run() {
    let interp = interpreter();
    let mut e = engine();
    assert_eq!(value(e.run(interp.parse_single_expr("7", Some("p".to_string())))), Some(7));
    assert_eq!(e.log, vec!["source \"7\" Some(\"p\")", "parse-one \"7\" at 40"]);
    let mut e = engine();
    match e.run(interp.compile_single_expr("7", None)) {
        Ok(Output::Code(code)) => assert_eq!(code, 107),
        _ => panic!("not a code object"),
    }
    assert_eq!(e.log, vec!["source \"7\" None", "parse-one \"7\" at 40", "compile 7"]);
    let mut e = engine();
    assert_eq!(value(e.run(interp.run_single_expr("7", None))), Some(14));
    assert_eq!(
        e.log,
        vec!["source \"7\" None", "parse-one \"7\" at 40", "compile 7", "execute 107"]
    );
}

#[test]
fn more_than_one_expression_is_an_error() {
    let interp = interpreter();
    for step in [
        interp.parse_single_expr("7 8", None),
        interp.compile_single_expr("7 8", None),
        interp.run_single_expr("7 8", None),
    ] {
        assert!(matches!(engine().run(step), Err(Error::Other(_))));
    }
}

#[test]
fn compile_exprs_returns_program_in_order() {
    let mut e = engine();
    match e.run(interpreter().compile_exprs("3 1 2")) {
        Ok(Output::Program(codes)) => assert_eq!(codes, vec![103, 101, 102]),
        _ => panic!("not a program"),
    }
    assert_eq!(e.log[0], "source \"3 1 2\" None");
}

#[test]
fn only_parse_file_skips_shebang() {
    let interp = interpreter();
    let mut e = engine();
    match e.run(interp.parse_exprs("4 5", None)) {
        Ok(Output::Exprs(exprs)) => {
            assert_eq!(exprs.iter().map(number).collect::<Vec<_>>(), vec![4, 5]);
        }
        _ => panic!("not expressions"),
    }
    match e.run(interp.parse_file("4 5", None)) {
        Ok(Output::Exprs(exprs)) => assert_eq!(exprs.len(), 2),
        _ => panic!("not expressions"),
    }
    assert_eq!(e.log[1], "parse \"4 5\" at 40 shebang false");
    assert_eq!(e.log[3], "parse \"4 5\" at 40 shebang true");
}

#[test]
fn call_of_defined_name() {
    let mut e = engine();
    let args = vec![Value::Other(1), Value::Other(2)];
    assert_eq!(value(e.run(interpreter().call("foo", args))), Some(53));
    assert_eq!(e.log, vec!["intern foo", "get 3", "call 50 [1, 2]"]);
}

#[test]
fn call_of_undefined_name() {
    let mut e = engine();
    let r = e.run(interpreter().call("nope", vec![Value::Unit]));
    assert!(matches!(r, Err(Error::ExecError(ExecError::NameError(4)))));
    assert_eq!(e.log, vec!["intern nope", "get 4"]);
}

#[test]
fn call_value_keeps_result_and_error() {
    let interp = interpreter();
    let step = interp.call_value(Value::Other(5), vec![Value::Other(6)]);
    assert_eq!(value(engine().run(step)), Some(11));
    let r = engine().run(interp.call_value(Value::Other(-3), vec![]));
    assert!(matches!(r, Err(Error::ExecError(ExecError::Other(_)))));
}

#[test]
fn get_value_found_or_not() {
    let interp = interpreter();
    let mut e = engine();
    assert!(matches!(e.run(interp.get_value("x")), Ok(Output::Found(None))));
    e.main = Some(8);
    assert!(matches!(
        e.run(interp.get_value("x")),
        Ok(Output::Found(Some(Value::Other(8))))
    ));
    assert_eq!(e.log, vec!["get-named x", "get-named x"]);
}

#[test]
fn set_args_defines_argv() {
    let mut e = engine();
    let r = e.run(interpreter().set_args(&["a", "", "b c"]));
    assert!(matches!(r, Ok(Output::Unit)));
    assert_eq!(e.log, vec!["define argv [\"a\", \"\", \"b c\"]"]);
}

#[test]
fn clear_codemap_clears() {
    let mut e = engine();
    assert!(matches!(e.run(interpreter().clear_codemap()), Ok(Output::Unit)));
    assert_eq!(e.log, vec!["clear"]);
}

fn opened(path: &str) -> ketos::step::ReadFile<Toy> {
    match interpreter().run_file(PathBuf::from(path)) {
        Step::OpenFile(s) => match s.resume(Ok(())) {
            Step::ReadFile(s) => s,
            _ => panic!("not reading"),
        },
        _ => panic!("not opening"),
    }
}

#[test]
fn unopened_file_is_reported() {
    match interpreter().run_file(PathBuf::from("dir/a.ket")) {
        Step::OpenFile(s) => match s.resume(Err(not_found())) {
            Step::Done(Err(Error::IoError(e))) => {
                assert_eq!(e.mode, IoMode::Open);
                assert_eq!(e.path, PathBuf::from("dir/a.ket"));
                assert_eq!(e.err.kind(), std::io::ErrorKind::NotFound);
            }
            _ => panic!("no error"),
        },
        _ => panic!("not opening"),
    }
}

#[test]
fn unread_file_is_reported() {
    match opened("dir/a.ket").resume(Err(not_found())) {
        Step::Done(Err(Error::IoError(e))) => {
            assert_eq!(e.mode, IoMode::Read);
            assert_eq!(e.path, PathBuf::from("dir/a.ket"));
        }
        _ => panic!("no error"),
    }
}

#[test]
fn run_file_without_main() {
    let mut e = engine();
    let r = e.run(opened("dir/a.ket").resume(Ok("1 2".to_string())));
    assert!(matches!(r, Ok(Output::Unit)));
    assert_eq!(
        e.log,
        vec![
            "source \"1 2\" Some(\"dir/a.ket\")",
            "parse \"1 2\" at 40 shebang true",
            "compile 1",
            "compile 2",
            "execute 101",
            "execute 102",
            "get-named main",
        ]
    );
}

#[test]
fn run_file_calls_main_without_arguments() {
    let mut e = engine();
    e.main = Some(60);
    let r = e.run(opened("a").resume(Ok("".to_string())));
    assert!(matches!(r, Ok(Output::Unit)));
    assert_eq!(e.log[2..], ["get-named main", "call 60 []"]);
}

#[test]
fn run_file_reports_error_of_main() {
    let mut e = engine();
    e.main = Some(-3);
    let r = e.run(opened("a").resume(Ok("".to_string())));
    assert!(matches!(r, Err(Error::ExecError(ExecError::Other(_)))));
}

#[test]
fn run_file_with_error_does_not_look_for_main() {
    let mut e = engine();
    e.main = Some(60);
    let r = e.run(opened("a").resume(Ok("-2".to_string())));
    assert!(matches!(r, Err(Error::ExecError(ExecError::Other(_)))));
    assert_eq!(e.log[2..], ["compile -2", "execute 98"]);
}

fn shown(error: Error<Toy>) -> Vec<String> {
    let mut e = engine();
    let r = e.run(interpreter().display_error(&error));
    assert!(matches!(r, Ok(Output::Unit)));
    e.log
}

#[test]
fn errors_are_shown_on_stderr() {
    assert_eq!(
        shown(Error::CompileError("no code".to_string())),
        vec!["Stderr compile error: no code"]
    );
    assert_eq!(
        shown(Error::ExecError(ExecError::NameError(6))),
        vec!["Stderr execution error: no name 6"]
    );
    assert_eq!(shown(Error::Other("oops".to_string())), vec!["Stderr trouble: oops"]);
    let io = ketos::host::IoError {
        mode: IoMode::Read,
        path: PathBuf::from("f"),
        err: not_found(),
    };
    assert_eq!(shown(Error::IoError(io)), vec!["Stderr trouble: Read f"]);
}

#[test]
fn parse_error_is_shown_with_its_line() {
    assert_eq!(
        shown(Error::ParseError(ParseError { span: 10, kind: 9 })),
        vec!["Stderr <input>:120:10:parse error: kind 9", "Stderr     (foo", "Stderr        ^"]
    );
}

#[test]
fn parse_error_in_named_file() {
    let error = Error::<Toy>::ParseError(ParseError { span: 0, kind: 0 });
    let hi = Highlight {
        filename: Some("b.ket".to_string()),
        line: usize::MAX,
        col: 0,
        source: "".to_string(),
        highlight: "^".to_string(),
    };
    match interpreter().display_error(&error) {
        Step::HighlightSpan(s) => match s.resume(hi, "end".to_string()) {
            Step::Print(s) => {
                assert_eq!(s.stream, Stream::Stderr);
                let first = format!("b.ket:{}:0:parse error: end", usize::MAX);
                assert_eq!(s.lines, vec![first.as_str(), "    ", "    ^"]);
            }
            _ => panic!("not printing"),
        },
        _ => panic!("not highlighting"),
    }
}

#[test]
fn trace_is_shown_on_stderr() {
    let mut e = engine();
    let r = e.run(interpreter().display_trace(&5));
    assert!(matches!(r, Ok(Output::Unit)));
    assert_eq!(e.log, vec!["Stderr Traceback:\n\ntrace 5"]);
}

#[test]
fn value_is_printed_as_it_is_formatted() {
    let interp = interpreter();
    let v = Value::Other(12);
    let mut e = engine();
    match e.run(interp.format_value(&v)) {
        Ok(Output::Text(text)) => assert_eq!(text, "<12>"),
        _ => panic!("not a text"),
    }
    assert!(e.log.is_empty());
    assert!(matches!(e.run(interp.display_value(&v)), Ok(Output::Unit)));
    assert_eq!(e.log, vec!["Stdout <12>"]);
}

#[test]
fn path_only_names_the_source() {
    let interp = interpreter();
    let mut named = engine();
    let mut unnamed = engine();
    assert_eq!(value(named.run(interp.run_code("1 2", Some("n".to_string())))), Some(4));
    assert_eq!(value(unnamed.run(interp.run_code("1 2", None))), Some(4));
    assert_ne!(named.log[0], unnamed.log[0]);
    assert_eq!(named.log[1..], unnamed.log[1..]);
}

/// The context that a step carries.
fn context_of<'s>(step: &'s Step<Toy>) -> Option<&'s Context<Toy>> {
    match step {
        Step::OpenFile(s) => Some(&s.context),
        Step::ReadFile(s) => Some(&s.context),
        Step::AddSource(s) => Some(&s.context),
        Step::ParseSingleExpr(s) => Some(&s.context),
        Step::ParseExprs(s) => Some(&s.context),
        Step::Compile(s) => Some(&s.context),
        Step::Execute(s) => Some(&s.next.context),
        Step::AddName(s) => Some(&s.context),
        Step::GetValue(s) => Some(&s.context),
        Step::GetNamedValue(s) => Some(&s.context),
        Step::CallFunction(s) => Some(&s.next.context),
        Step::AddNamedValue(s) => Some(&s.context),
        Step::ClearCodeMap(s) => Some(&s.context),
        Step::DisplayNames(s) => Some(&s.context),
        Step::HighlightSpan(s) => Some(&s.context),
        Step::Describe(s) => Some(&s.context),
        Step::DebugNames(s) => Some(&s.context),
        Step::Print(s) => Some(&s.context),
        Step::Done(_) => None,
    }
}

#[test]
fn every_operation_works_in_its_interpreter() {
    let error = Error::Other("oops".to_string());
    let parse_error = Error::ParseError(ParseError { span: 0, kind: 0 });
    let v = Value::Unit;
    for (scope, handle) in [(1, 2), (1, 3), (8, 9)] {
        let interp = in_context(scope, handle);
        let steps = [
            interp.clear_codemap(),
            interp.display_error(&error),
            interp.display_error(&parse_error),
            interp.display_trace(&5),
            interp.display_value(&v),
            interp.format_value(&v),
            interp.execute(1),
            interp.execute_code(Rc::new(1)),
            interp.execute_program(vec![1, 2]),
            interp.call("f", vec![]),
            interp.call_value(Value::Unit, vec![]),
            interp.get_value("x"),
            interp.set_args(&["a"]),
            interp.run_file(PathBuf::from("a")),
            interp.run_single_expr("1", None),
            interp.run_code("1", None),
            interp.compile_single_expr("1", None),
            interp.compile_exprs("1"),
            interp.parse_single_expr("1", None),
            interp.parse_exprs("1", None),
            interp.parse_file("1", None),
        ];
        for step in &steps {
            match context_of(step) {
                Some(context) => {
                    assert_eq!(context.scope, scope);
                    assert_eq!(context.handle, handle);
                    assert!(std::ptr::eq(context, interp.context()));
                }
                None => panic!("nothing to do"),
            }
        }
    }
}

#[test]
fn work_stays_in_its_context() {
    let interp = in_context(6, 7);
    let mut step = interp.run_code("1", None);
    let mut seen = 0;
    while let Some(context) = context_of(&step) {
        assert!(std::ptr::eq(context, interp.context()));
        seen += 1;
        step = match step {
            Step::AddSource(s) => s.resume(0),
            Step::ParseExprs(s) => s.resume(Ok(vec![Value::Other(1), Value::Other(2)])),
            Step::Compile(s) => s.resume(Ok(5)),
            Step::Execute(s) => s.next.resume(Ok(Value::Unit)),
            _ => panic!("something else"),
        };
    }
    assert_eq!(seen, 6);
}

#[test]
fn results_are_of_the_kind_of_the_operation() {
    let interp = interpreter();
    let v = Value::Other(1);
    assert!(matches!(engine().run(interp.run_code("1", None)), Ok(Output::Value(_))));
    assert!(matches!(engine().run(interp.run_single_expr("1", None)), Ok(Output::Value(_))));
    assert!(matches!(engine().run(interp.execute(101)), Ok(Output::Value(_))));
    assert!(matches!(engine().run(interp.call("foo", vec![])), Ok(Output::Value(_))));
    assert!(matches!(engine().run(interp.get_value("x")), Ok(Output::Found(_))));
    assert!(matches!(engine().run(interp.parse_single_expr("1", None)), Ok(Output::Value(_))));
    assert!(matches!(engine().run(interp.parse_exprs("1", None)), Ok(Output::Exprs(_))));
    assert!(matches!(engine().run(interp.compile_single_expr("1", None)), Ok(Output::Code(_))));
    assert!(matches!(engine().run(interp.compile_exprs("1")), Ok(Output::Program(_))));
    assert!(matches!(engine().run(interp.format_value(&v)), Ok(Output::Text(_))));
    assert!(matches!(engine().run(interp.display_value(&v)), Ok(Output::Unit)));
    assert!(matches!(engine().run(interp.set_args(&[])), Ok(Output::Unit)));
    assert!(matches!(engine().run(interp.clear_codemap()), Ok(Output::Unit)));
}

#[test]
fn shebang_is_left_to_the_parser() {
    let interp = interpreter();
    for (step, skip) in [
        (interp.parse_file("#!x\n1", None), true),
        (interp.parse_exprs("#!x\n1", None), false),
    ] {
        match step {
            Step::AddSource(s) => {
                assert_eq!(s.input, "#!x\n1");
                match s.resume(9) {
                    Step::ParseExprs(s) => {
                        assert_eq!(s.input, "#!x\n1");
                        assert_eq!(s.offset, 9);
                        assert_eq!(s.skip_shebang, skip);
                    }
                    _ => panic!("not parsing"),
                }
            }
            _ => panic!("no source"),
        }
    }
}

#[test]
fn set_args_without_arguments_still_defines_argv() {
    let mut e = engine();
    assert!(matches!(e.run(interpreter().set_args(&[])), Ok(Output::Unit)));
    assert_eq!(e.log, vec!["define argv []"]);
}
