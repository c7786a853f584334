//! Calls into the Rust parser for the source text held in attribute literals.
use vstd::prelude::*;

verus! {

/// Relies on `syn::parse_str::<syn::Expr>` to tell whether `src` is an
/// expression. On success the text itself is handed back, to be spliced into
/// generated code as written; on failure, the parser's message.
#[verifier::external_body]
pub(crate) fn parse_expr(src: &str) -> (r: Result<String, String>)
    ensures
        r matches Ok(t) ==> t@ == src@,
{
    match syn::parse_str::<syn::Expr>(src) {
        Ok(_) => Ok(src.to_string()),
        Err(e) => Err(e.to_string()),
    }
}

/// Relies on `syn::parse_str::<syn::Type>` to tell whether `src` is a type.
/// On success the text itself is handed back, to be spliced into generated
/// code as written; on failure, the parser's message.
#[verifier::external_body]
pub(crate) fn parse_type(src: &str) -> (r: Result<String, String>)
    ensures
        r matches Ok(t) ==> t@ == src@,
{
    match syn::parse_str::<syn::Type>(src) {
        Ok(_) => Ok(src.to_string()),
        Err(e) => Err(e.to_string()),
    }
}

} // verus!
