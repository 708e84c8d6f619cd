//! Writing identifiers as a style sheet spells them.

use vstd::prelude::*;
use crate::values::ident::Atom;

verus! {

/// The spelling of the identifier `value` in a style sheet, with the
/// characters escaped that an identifier cannot hold as they are.
pub uninterp spec fn css_identifier(value: Seq<char>) -> Seq<char>;

/// Spells `value` as an identifier, by `cssparser::serialize_identifier`.
///
/// The contract gives the spelling a name and claims that it depends on
/// the characters of `value` alone. Writing to a `String` does not fail, so
/// the serializer always runs to its end.
#[verifier::external_body]
fn serialize_identifier(value: &str) -> (css: String)
    ensures
        css@ == css_identifier(value@),
{
    let mut css = String::new();
    let _ = cssparser::serialize_identifier(value, &mut css);
    css
}

/// Spells the atom `ident` as an identifier.
pub fn serialize_atom_identifier(ident: &Atom) -> (css: String)
    ensures
        css@ == css_identifier(ident@),
{
    serialize_identifier(ident.as_str())
}

} // verus!
