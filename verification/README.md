# hsm_parser

Reads the model of a hierarchical state machine out of a Rust source file that
implements the `TopState` and `State<Tag>` traits: the machine's name, its event
type and initial transition, and for each state its entry, exit and init actions
and how its `handle` function reacts to each event (actions, conditions,
transitions).

Layout:

- `src/` is the library, verified with Verus.
  - `syntax.rs`: the part of a Rust syntax tree that the parser reads.
  - `model.rs`: the state machine model and its views.
  - `errors.rs`: the errors the parser reports.
  - `rust_source.rs`: parsing source text with `syn`.
  - `parser/`: reading the model out of a syntax tree (`top_state.rs`, `init.rs`,
    `state/mod.rs`, `state/handle.rs`), and the properties that hold across these
    operations (`properties.rs`).
- `app/` is the command line front end: it reads the file, has the library parse
  it, converts `syn`'s syntax tree into the library's (`lower.rs`), and prints the
  model or the error message.
- `tests/` holds the tests.
