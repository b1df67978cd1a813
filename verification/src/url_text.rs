//! URLs, as the `url` crate reads them.

use vstd::prelude::*;
use url::Url;

verus! {

/// `url::Url`: a parsed absolute URL. Opaque to the verifier.
#[verifier::external_type_specification]
#[verifier::external_body]
pub struct ExUrl(Url);

/// What `url::Url::parse` makes of a text: the URL, or the text of the parse
/// error.
pub uninterp spec fn url_parse(text: Seq<char>) -> Result<Url, Seq<char>>;

/// Parses a text as an absolute URL with `url::Url::parse`.
///
/// Trusted: the outcome is a function of the text alone, which the contract
/// names `url_parse`; an error is handed back as its own message.
#[verifier::external_body]
pub(crate) fn parse_url(text: &str) -> (parsed: Result<Url, String>)
    ensures
        match parsed {
            Ok(url) => url_parse(text@) == Ok::<Url, Seq<char>>(url),
            Err(message) => url_parse(text@) == Err::<Url, Seq<char>>(message@),
        },
{
    Url::parse(text).map_err(|e| e.to_string())
}

} // verus!
