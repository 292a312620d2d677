//! Parsing of type expressions and statements, done by `syn`.
//!
//! A parsed value is handed on as the token text that `syn` prints for it.
//! That text depends on the `proc-macro2` backend in use (the compiler's own
//! inside a running procedural macro, a fallback elsewhere) and on the
//! compiler version, so nothing is claimed of it here. The library only ever
//! compares texts printed within one run, where the backend is the same.
use syn_helpers::syn;
use syn_helpers::ToTokens;
use vstd::prelude::*;

verus! {

/// Relies on `syn::parse_str::<syn::Type>`, printed back with
/// `ToTokens::to_token_stream`: the printed type, or the message of the parse
/// error.
#[verifier::external_body]
pub(crate) fn parse_type(text: &str) -> (r: Result<String, String>) {
    match syn::parse_str::<syn::Type>(text) {
        Ok(ty) => Ok(ty.to_token_stream().to_string()),
        Err(e) => Err(e.to_string()),
    }
}

/// Relies on `syn::parse_str::<syn::Stmt>`, printed back with
/// `ToTokens::to_token_stream`: the printed statement, or the message of the
/// parse error.
#[verifier::external_body]
pub(crate) fn parse_stmt(text: &str) -> (r: Result<String, String>) {
    match syn::parse_str::<syn::Stmt>(text) {
        Ok(stmt) => Ok(stmt.to_token_stream().to_string()),
        Err(e) => Err(e.to_string()),
    }
}

} // verus!
