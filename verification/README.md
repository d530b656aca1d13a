# ketos

The interpreter session of a small Lisp, verified with Verus.

The library decides what a session does: how it is put together from parts, in which order a
source is parsed, compiled and executed, what an error ends, and what is printed. The language
engine behind it (names, code map, parser, compiler, execution) stays outside. Each operation
returns a step that names one thing for the engine to do in the session's context, and the
engine's reply gives the next step.

- `src/host.rs`: the types of an engine, and the values and errors that a session looks into.
- `src/context.rs`, `src/builder.rs`, `src/setup.rs`: the parts of a session, putting them
  together, and having the engine make what is missing.
- `src/model.rs`: the states of the work, and how each reply leads to the next.
- `src/step.rs`: the executable steps, proved against the model.
- `src/interpreter.rs`: the operations.
- `src/text.rs`: the texts that are printed.
- `src/laws.rs`: what holds of the library as a whole.
- `app/`: a driver that runs the steps against an engine, the file system and the streams.
