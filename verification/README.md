# typescript type definitions, verified

A library that writes TypeScript definitions for the JSON encoding of Rust
types: a definition file with a type and everything it depends on, or an
expression that refers to a type. The text written is specified in
`src/spec_text.rs` and every writing function is proved (with Verus) to
produce exactly that text.

- `src/` — the verified library (see the module list in `src/lib.rs`);
  `src/laws.rs` holds the proved properties: every dependency is defined,
  no definition is written twice, dependencies come first, the same
  definitions give the same text, and documentation lines rejoin to the
  original text.
- `tests/` — tests on concrete types.
- `app/` — the same operations writing to any `std::io::Write`.
