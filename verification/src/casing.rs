//! Snake-case conversion for defaulted names.
//!
//! When a declaration does not name a command or field explicitly, its name
//! defaults to the declaration identifier translated to snake case.

use convert_case::{Case, Casing};
use vstd::prelude::*;

verus! {

/// The snake-case translation of a character sequence, as `convert_case`
/// computes it.  The translation depends on the input characters alone.
pub uninterp spec fn snake_of(s: Seq<char>) -> Seq<char>;

/// Relies on `convert_case`'s `Casing::to_case` with `Case::Snake`: a pure
/// conversion that splits the input into words, lowercases them and joins
/// them with underscores, depending on the input characters alone.
#[verifier::external_body]
pub(crate) fn to_snake_case(s: &str) -> (r: String)
    ensures
        r@ == snake_of(s@),
{
    s.to_case(Case::Snake)
}

} // verus!
