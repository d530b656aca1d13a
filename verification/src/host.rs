//! What the interpreter knows of the language engine: the kinds of things that it carries from
//! one engine call to the next, and the few values that it looks into or makes itself.

use vstd::prelude::*;

verus! {

/// The types of one language engine.
///
/// The interpreter moves values of these types between engine calls and never looks inside.
pub trait Host {
    /// A handle to an execution context.
    type Context;

    /// A handle to a global scope.
    type Scope;

    /// A handle to a name store.
    type Names;

    /// A handle to a code map.
    type CodeMap;

    /// A handle to a module registry.
    type Modules;

    /// A set of limits on execution.
    type RestrictConfig;

    /// A set of input and output handles.
    type GlobalIo;

    /// A module loader supplied from outside.
    type ModuleLoader;

    /// An interned name.
    type Name;

    /// Any value other than the unit value.
    type Value;

    /// A compiled code object.
    type Code;

    /// The position that the code map assigns to the start of a source text.
    type Offset;

    /// A range within the code map.
    type Span;

    /// What was wrong with the text, in a parse error.
    type ParseErrorKind;

    /// An error found while compiling.
    type CompileError;

    /// An error raised while executing, other than an undefined name.
    type ExecError;

    /// Any other error.
    type Error;

    /// A record of the calls that led to an error.
    type Trace;
}

/// A value of the language.
pub enum Value<H: Host> {
    /// The unit value, `()`.
    Unit,
    /// Any other value.
    Other(H::Value),
}

/// An error raised while executing code.
pub enum ExecError<H: Host> {
    /// A name that has no value in the scope.
    NameError(H::Name),
    /// Any other execution error.
    Other(H::ExecError),
}

/// An error found while parsing.
pub struct ParseError<H: Host> {
    /// Where in the source the error was found.
    pub span: H::Span,
    /// What was wrong there.
    pub kind: H::ParseErrorKind,
}

/// The operating system's account of a failed file operation.
#[verifier::external_type_specification]
#[verifier::external_body]
pub struct ExIoFailure(std::io::Error);

/// The path of a file.
#[verifier::external_type_specification]
#[verifier::external_body]
pub struct ExPathBuf(std::path::PathBuf);

/// The text of a path, as `std::path::Path::to_string_lossy` gives it.
pub uninterp spec fn path_text(path: std::path::PathBuf) -> Seq<char>;

/// Turns a path into text with `std::path::Path::to_string_lossy`, which is documented to put
/// replacement characters where the path is not Unicode. The contract claims that the text
/// depends on the path alone, and leaves unsaid how the two relate.
#[verifier::external_body]
pub(crate) fn path_to_text(path: &std::path::PathBuf) -> (r: String)
    ensures
        r@ == path_text(*path),
{
    path.to_string_lossy().into_owned()
}

/// What was being done to a file when it failed.
#[derive(Clone, Copy, Debug, PartialEq, Eq, Structural)]
pub enum IoMode {
    /// Opening the file.
    Open,
    /// Reading its contents.
    Read,
}

/// A failed file operation.
pub struct IoError {
    /// What was being done.
    pub mode: IoMode,
    /// To which file.
    pub path: std::path::PathBuf,
    /// How it failed.
    pub err: std::io::Error,
}

/// An error of any stage.
pub enum Error<H: Host> {
    /// Found while compiling.
    CompileError(H::CompileError),
    /// Raised while executing.
    ExecError(ExecError<H>),
    /// Found while parsing.
    ParseError(ParseError<H>),
    /// A file could not be opened or read.
    IoError(IoError),
    /// Any other error.
    Other(H::Error),
}

} // verus!
