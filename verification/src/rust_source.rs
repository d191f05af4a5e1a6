//! Parsing Rust source text with `syn`.
use vstd::prelude::*;

verus! {

/// The syntax tree of a Rust source file as `syn` builds it; opaque here, and carried
/// through to the conversion into `crate::syntax`.
#[verifier::external_type_specification]
#[verifier::external_body]
pub struct ExSynFile(syn::File);

/// Whether `syn` accepts the text as a Rust source file.
pub uninterp spec fn rust_source_parses(content: Seq<char>) -> bool;

/// Parses Rust source text with `syn::parse_file`: the syntax tree, or `None` where syn
/// reports an error (the error itself is dropped; nothing here reads it).
///
/// Claimed, not proved: whether syn accepts the text depends on the text alone, and the
/// texts it accepts are those of `rust_source_parses`. Nothing is claimed of what the
/// syntax tree holds.
#[verifier::external_body]
pub(crate) fn parse_rust_file(content: &str) -> (res: Option<syn::File>)
    ensures
        res is Some <==> rust_source_parses(content@),
{
    syn::parse_file(content).ok()
}

} // verus!
