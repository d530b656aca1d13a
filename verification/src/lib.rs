//! A Lisp interpreter session, written apart from the language engine that it drives.

pub mod builder;
pub mod context;
pub mod host;
pub mod interpreter;
pub mod laws;
pub mod model;
pub mod outcomes;
pub mod reactions;
pub mod setup;
pub mod step;
pub mod text;
