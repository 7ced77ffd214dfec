//! Case folding for answer matching.
//!
//! Answers are matched case-insensitively: both the submitted text and every
//! candidate answer are folded to lower case before comparison. The folding
//! itself is done by the standard library; its result is given a name,
//! `lower_of`, that the contracts of the matching functions speak of.

use vstd::prelude::*;

verus! {

/// The lower-case folding of a sequence of characters, as
/// `str::to_lowercase` computes it.
pub uninterp spec fn lower_of(s: Seq<char>) -> Seq<char>;

/// Relies on `str::to_lowercase`: the result depends on the characters of
/// the input alone.
#[verifier::external_body]
pub(crate) fn fold_case(s: &str) -> (r: String)
    ensures
        r@ == lower_of(s@),
{
    s.to_lowercase()
}

} // verus!
