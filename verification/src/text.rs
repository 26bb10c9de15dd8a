//! Text helpers backed by the standard library's Unicode tables.

use vstd::prelude::*;

verus! {

/// The Unicode lowercase mapping of a character sequence. The full mapping is
/// well beyond stating here; the contracts only rely on it being a function
/// of the characters.
pub uninterp spec fn lower_of(s: Seq<char>) -> Seq<char>;

/// Relies on str::to_lowercase: the Unicode lowercase mapping, determined by
/// the characters alone (no locale).
#[verifier::external_body]
pub(crate) fn lowercase(s: &str) -> (r: String)
    ensures
        r@ == lower_of(s@),
{
    s.to_lowercase()
}

} // verus!
