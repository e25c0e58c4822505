# Parser error management, verified

Error handling for parser combinators, written in Verus.

- `src/error.rs`: the error kinds with their numbers and descriptions, the
  `ParseError` trait with its three error types (`(I, ErrorKind)`, `()` and
  `VerboseError`), `make_error`, `append_error`, the `context` combinator,
  and `convert_error`, which turns a `VerboseError` into a readable trace.
- `src/trace.rs`: how a trace is laid out (lines, byte columns, decimal
  numbers) as spec functions, and `render_error_trace`, which writes a trace
  from errors whose byte offsets are known.
- `src/internal.rs`: the result type of a parser.
- `tests/`: executable checks on concrete values.
