//! The Unicode classification of characters, as the standard library has
//! it.

use vstd::prelude::*;

verus! {

/// Whether `char::is_alphanumeric` holds of the character.
pub uninterp spec fn is_alphanumeric(c: char) -> bool;

/// Asks `char::is_alphanumeric`, the Unicode classification of the standard
/// library.
///
/// Trusted: the answer is a function of the character alone, which the
/// contract names `is_alphanumeric`.
#[verifier::external_body]
pub(crate) fn char_is_alphanumeric(c: char) -> (yes: bool)
    ensures
        yes == is_alphanumeric(c),
{
    c.is_alphanumeric()
}

} // verus!
