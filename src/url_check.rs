//! Syntactic validation of the URL that a request is sent to.
use vstd::prelude::*;

use crate::error::HttpieError;

verus! {

/// Whether `Url::parse` reads `s` as an absolute URL.
pub uninterp spec fn url_parses(s: Seq<char>) -> bool;

/// Whether the URL that `Url::parse` reads from `s` names a host.
pub uninterp spec fn url_has_host(s: Seq<char>) -> bool;

/// Relies on `reqwest::Url::parse` (the `url` crate) to read `s` as an absolute URL, and
/// on `Url::has_host` for whether the result names a host. A string without `:` holds no
/// scheme, and the parser then refuses it as a relative URL without a base. `has_host`
/// only reads a field of the parsed value, which Verus cannot see: the two calls share
/// one wrapper so that both answers are named over the input string.
#[verifier::external_body]
fn parsed_url_has_host(s: &str) -> (r: Option<bool>)
    ensures
        r is Some <==> url_parses(s@),
        r matches Some(h) ==> h == url_has_host(s@),
        !s@.contains(':') ==> r is None,
{
    reqwest::Url::parse(s).ok().map(|u| u.has_host())
}

/// A URL that a request may be sent to: one that parses as an absolute URL with a host.
pub open spec fn valid_url(s: Seq<char>) -> bool {
    url_parses(s) && url_has_host(s)
}

/// Accepts `s` unchanged when it is an absolute URL with a scheme and a host; otherwise
/// a validation error naming `s`. No network access takes place.
pub fn parse_url(s: &str) -> (r: Result<String, HttpieError>)
    ensures
        r is Ok <==> valid_url(s@),
        r matches Ok(u) ==> u@ == s@,
        !s@.contains(':') ==> r is Err,
        r matches Err(e) ==> (e matches HttpieError::Validation { input } && input@ == s@),
{
    match parsed_url_has_host(s) {
        Some(true) => Ok(s.to_string()),
        _ => Err(HttpieError::Validation { input: s.to_string() }),
    }
}

} // verus!
