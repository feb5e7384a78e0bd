//! Uppercase rendering of field identifiers.

use vstd::prelude::*;

verus! {

/// The uppercase rendering of a character sequence, as Rust's Unicode
/// uppercasing produces it. The mapping is a pure function of the input
/// characters; its full definition is Unicode's uppercase mapping, so it is
/// left abstract here and pinned down only through `to_upper`.
pub uninterp spec fn upper_of(s: Seq<char>) -> Seq<char>;

/// Relies on str::to_uppercase: the result depends on the input characters
/// alone (the Unicode uppercase mapping, locale-independent).
#[verifier::external_body]
pub fn to_upper(s: &String) -> (r: String)
    ensures
        r@ == upper_of(s@),
{
    s.to_uppercase()
}

} // verus!
