//! Derivation of a single-method accessor, `GetFieldByType<T>`, for structs and
//! enums: the field whose declared type is the requested one is located, a
//! one-field positional wrapper is unwrapped, or a configured fallback body is
//! used, and every other shape is rejected with a diagnostic.
use vstd::prelude::*;

pub mod accessor;
pub mod derive;
pub mod emit;
pub mod laws;
pub mod resolve;
pub mod shape;
pub mod syntax;

pub use accessor::GetFieldByType;
