# drone_macros

The procedural macros of the Drone embedded operating system, as a verified
library. Each macro reads a flat model of its input tokens (`src/token.rs`:
identifiers, punctuation, literals, and the opening and closing delimiters
of groups, laid out in one vector) and answers with a plan of what it
expands to: the positions of the input tokens it reuses, the names it
builds, and the errors it reports. The contracts state each plan exactly,
over specification functions of the token sequence. For many macros the
library also builds the expansion itself, as a vector of flat tokens whose
contract is the exact token sequence (`expand_*` functions).

- `src/` is verified with Verus: one module per macro, plus `token` (the
  flat model and the parsers every macro shares) and `case` (the case
  conversions of `heck` and `Inflector`, and `unkeywordize`).
- `app/` turns the tokens that the library built into a token stream,
  writes the plans of `heap!`, the bitfield derives and the resource
  derives out as Rust tokens with `quote`, reads the project's
  configuration with `drone-config`, and sets the environment variables of
  the override macros. `app/lib.rs` names the macros that are planned and
  checked by the library but whose items are not written out.
- `tests/` runs the macros on concrete inputs read by `proc-macro2`.

This library does not provide `periph_one!`, `unsafe_init_tokens!` or
`unit_token!`: their definitions are not part of the project.
