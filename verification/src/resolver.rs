//! Resolution of the "latest release" redirect: the decision taken on an
//! HTTP response that was fetched with redirect-following switched off.
//! The fetch itself is unverified plumbing; this module decides, from the
//! response's redirect status, its Location header and its effective URL,
//! which URL is the canonical release URL, or which protocol error to report.

use vstd::prelude::*;

verus! {

/// What URL parsing makes of a character sequence: `None` where the text
/// is not a valid URL, otherwise `Some` of the parsed URL's normalized
/// textual form.
pub uninterp spec fn url_parse(s: Seq<char>) -> Option<Seq<char>>;

/// The protocol errors of redirect resolution.
#[derive(Clone, Copy, PartialEq, Eq, Structural, Debug)]
pub enum ResolveError {
    /// The response was a redirect but carried no usable Location header.
    NoLocationHeader,
    /// The response was a redirect whose Location header is not a valid URL.
    BadLocationUrl,
}

/// Relies on reqwest::Url::parse (the url crate's WHATWG parser): success
/// and the normalized text depend on the input characters alone.
#[verifier::external_body]
fn parse_url_text(s: &str) -> (r: Option<String>)
    ensures
        r is Some <==> url_parse(s@) is Some,
        r is Some ==> r->0@ == url_parse(s@)->0,
{
    match reqwest::Url::parse(s) {
        Ok(u) => Some(String::from(u)),
        Err(_) => None,
    }
}

/// Decides the canonical release URL from a response to the "latest
/// release" endpoint, fetched without following redirects.
///
/// A redirect response resolves to its parsed Location header; a redirect
/// without a usable Location header, or with one that is not a valid URL,
/// is a protocol error. A non-redirect response resolves to its own
/// effective URL, unchanged.
pub fn resolve_location(is_redirect: bool, location: Option<String>, effective_url: String) -> (r:
    Result<String, ResolveError>)
    ensures
        !is_redirect ==> (r matches Ok(u) && u@ == effective_url@),
        is_redirect && location is None ==> r == Err::<String, ResolveError>(
            ResolveError::NoLocationHeader,
        ),
        is_redirect ==> (location matches Some(loc) ==> (url_parse(loc@) is None ==> r == Err::<
            String,
            ResolveError,
        >(ResolveError::BadLocationUrl))),
        is_redirect ==> (location matches Some(loc) ==> (url_parse(loc@) matches Some(parsed)
            ==> (r matches Ok(u) && u@ == parsed))),
{
    if is_redirect {
        match location {
            Some(loc) => match parse_url_text(loc.as_str()) {
                Some(parsed) => Ok(parsed),
                None => Err(ResolveError::BadLocationUrl),
            },
            None => Err(ResolveError::NoLocationHeader),
        }
    } else {
        Ok(effective_url)
    }
}

} // verus!
