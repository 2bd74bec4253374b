//! Emits TypeScript type definitions that describe the JSON encoding of Rust
//! values, with the text that is produced stated and proved.
//!
//! - `type_expr`: the structure of types (expressions, definitions, type
//!   information).
//! - `text`: splitting documentation into lines, and string quoting.
//! - `spec_text`: the text that each part is written as.
//! - `same`: when two definitions agree in every part.
//! - `iter_def_deps`: the definitions a type depends on, in the order they
//!   are written.
//! - `emit`: writing references, definitions and whole definition files.
//! - `impls`: type information for standard Rust types.
//! - `laws`: properties of the definition files, proved.

pub mod type_expr;
pub mod text;
pub mod spec_text;
pub mod same;
pub mod iter_def_deps;
pub mod emit;
pub mod impls;
pub mod laws;
pub mod structure_laws;
