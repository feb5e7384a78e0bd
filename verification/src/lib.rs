//! Derivation of environment-backed constructors for record types.
//!
//! Given a description of a struct's fields, the library resolves, for each
//! field, the environment variable that supplies its value (an explicit
//! `env` annotation, or else the field name in uppercase), decides whether
//! the field is optional (its type is an `Option` wrapper), and produces the
//! per-field initialization plans for a generated `new` constructor.
//! Required fields must have their variable set in the generation-time
//! environment; generation reports the first missing one. The library also
//! models the run-time behaviour of the generated code: reading a variable,
//! parsing its text into the field's type, and the exact conditions under
//! which construction aborts.

pub mod envmap;
pub mod generate;
pub mod laws;
pub mod model;
pub mod names;
pub mod parse;
pub mod runtime;
