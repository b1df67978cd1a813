//! UUID texts, as the `uuid` crate reads and writes them.

use vstd::prelude::*;

verus! {

/// Whether `uuid::Uuid::parse_str` accepts the text.
pub uninterp spec fn is_uuid_text(text: Seq<char>) -> bool;

/// Asks `uuid::Uuid::parse_str` whether it accepts `text`.
///
/// Trusted: the answer is a function of the text alone, which the contract
/// names `is_uuid_text`. Nothing is claimed about which texts are accepted.
#[verifier::external_body]
pub(crate) fn parses_as_uuid(text: &str) -> (accepted: bool)
    ensures
        accepted == is_uuid_text(text@),
{
    uuid::Uuid::parse_str(text).is_ok()
}

/// Draws a random UUID with `uuid::Uuid::new_v4` and writes it as text
/// through its `Display`.
///
/// Trusted. Which UUID is drawn depends on the random source, so the
/// contract says nothing of it. Whatever is drawn, `Display` writes it in
/// the hyphenated form, and `Uuid::parse_str` accepts that form: its
/// documentation says so of every format the crate writes. That is all the
/// contract claims. `new_v4` panics where the operating system cannot supply
/// random bytes.
#[verifier::external_body]
pub(crate) fn random_uuid_text() -> (text: String)
    ensures
        is_uuid_text(text@),
{
    uuid::Uuid::new_v4().to_string()
}

} // verus!
