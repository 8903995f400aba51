//! What the library takes from the standard library's strings without
//! proof: comparing two texts, finding a prefix, and lower case.

use vstd::prelude::*;

verus! {

/// Whether a text begins with another.
pub open spec fn has_prefix(text: Seq<char>, prefix: Seq<char>) -> bool {
    prefix.len() <= text.len() && text.subrange(0, prefix.len() as int) == prefix
}

/// What `str::to_lowercase` makes of a text.
pub uninterp spec fn lowercased(text: Seq<char>) -> Seq<char>;

/// `str`'s own equality. Two strings are equal when they hold the same
/// characters in the same order.
#[verifier::external_body]
pub(crate) fn same_text(left: &str, right: &str) -> (same: bool)
    ensures
        same == (left@ == right@),
{
    left == right
}

/// `str::starts_with` with a string as the pattern: whether the pattern is
/// a prefix of the text.
#[verifier::external_body]
pub(crate) fn starts_with(text: &str, prefix: &str) -> (begins: bool)
    ensures
        begins == has_prefix(text@, prefix@),
{
    text.starts_with(prefix)
}

/// `str::to_lowercase`. The contract claims only that the result is a
/// function of the text.
#[verifier::external_body]
pub(crate) fn lowercase(text: &str) -> (lower: String)
    ensures
        lower@ == lowercased(text@),
{
    text.to_lowercase()
}

} // verus!
