//! Validated requests, built from the command line's URL and `key=value` tokens.
use vstd::prelude::*;

use crate::error::HttpieError;
use crate::kv::{
    body_entries, body_map, entries_view, has_separator, key_of, keys_unique, pair_view,
    value_of, KvPair,
};
use crate::url_check::{parse_url, valid_url};

verus! {

/// The two request methods the client issues.
#[derive(Debug, Clone, Copy, PartialEq, Eq, Structural)]
pub enum Method {
    Get,
    Post,
}

/// One request to send: method, validated URL, and for POST the JSON body's entries.
#[derive(Debug)]
pub struct RequestSpec {
    pub method: Method,
    pub url: String,
    /// Keys and values of the JSON object sent as body; empty for GET.
    pub body: Vec<(String, String)>,
}

/// Every token holds an `=`.
pub open spec fn all_pairs(tokens: Seq<String>) -> bool {
    forall|i: int| 0 <= i < tokens.len() ==> has_separator(tokens[i]@)
}

/// Whether token `i` is the first one without `=`.
pub open spec fn is_first_bad_token(tokens: Seq<String>, i: int) -> bool {
    &&& 0 <= i < tokens.len()
    &&& !has_separator(tokens[i]@)
    &&& forall|j: int| 0 <= j < i ==> has_separator(tokens[j]@)
}

/// The key and value that each token splits into.
pub open spec fn token_entries(tokens: Seq<String>) -> Seq<(Seq<char>, Seq<char>)> {
    tokens.map_values(|t: String| (key_of(t@), value_of(t@)))
}

/// A GET request to `url`, or a validation error naming `url` when it is not an
/// absolute URL with a host.
pub fn get_request(url: &str) -> (r: Result<RequestSpec, HttpieError>)
    ensures
        r is Ok <==> valid_url(url@),
        r matches Ok(q) ==> q.method == Method::Get && q.url@ == url@ && q.body@.len() == 0,
        r matches Err(e) ==> (e matches HttpieError::Validation { input } && input@ == url@),
{
    match parse_url(url) {
        Ok(u) => Ok(RequestSpec { method: Method::Get, url: u, body: Vec::new() }),
        Err(e) => Err(e),
    }
}

/// A POST request to `url` whose body maps each token's key to its value, a later token
/// overwriting an earlier one with the same key. The URL is checked first, then the
/// tokens in order; the first that fails is named in the validation error.
pub fn post_request(url: &str, tokens: &Vec<String>) -> (r: Result<RequestSpec, HttpieError>)
    ensures
        r is Ok <==> valid_url(url@) && all_pairs(tokens@),
        r matches Ok(q) ==> {
            &&& q.method == Method::Post
            &&& q.url@ == url@
            &&& keys_unique(entries_view(q.body@))
            &&& body_map(entries_view(q.body@)) == body_map(token_entries(tokens@))
        },
        r matches Err(e) ==> e matches HttpieError::Validation { input } && (if !valid_url(
            url@,
        ) {
            input@ == url@
        } else {
            exists|i: int| is_first_bad_token(tokens@, i) && input@ == tokens@[i]@
        }),
{
    let u = match parse_url(url) {
        Ok(u) => u,
        Err(e) => {
            return Err(e);
        },
    };
    let mut pairs: Vec<KvPair> = Vec::new();
    let mut i: usize = 0;
    while i < tokens.len()
        invariant
            i <= tokens.len(),
            valid_url(url@),
            u@ == url@,
            forall|j: int| 0 <= j < i ==> has_separator(tokens@[j]@),
            pairs@.map_values(|p: KvPair| pair_view(p)) == token_entries(tokens@.take(i as int)),
        decreases tokens.len() - i,
    {
        match KvPair::from_str(tokens[i].as_str()) {
            Ok(p) => {
                let ghost before = pairs@;
                let ghost t = tokens@[i as int]@;
                assert(token_entries(tokens@.take(i + 1)) =~= token_entries(
                    tokens@.take(i as int),
                ).push((key_of(t), value_of(t))));
                assert(pair_view(p) == (key_of(t), value_of(t)));
                pairs.push(p);
                assert(pairs@.map_values(|p: KvPair| pair_view(p)) =~= before.map_values(
                    |p: KvPair| pair_view(p),
                ).push((key_of(t), value_of(t))));
            },
            Err(e) => {
                assert(is_first_bad_token(tokens@, i as int));
                return Err(e);
            },
        }
        i = i + 1;
    }
    assert(tokens@.take(tokens.len() as int) =~= tokens@);
    let body = body_entries(&pairs);
    Ok(RequestSpec { method: Method::Post, url: u, body })
}

/// The headers sent with every request: `X-Powered-By: Rust` and
/// `User-Agent: Rust Httpie`.
pub fn default_headers() -> (r: Vec<(String, String)>)
    ensures
        entries_view(r@) == seq![
            ("X-Powered-By"@, "Rust"@),
            ("User-Agent"@, "Rust Httpie"@),
        ],
{
    let mut r: Vec<(String, String)> = Vec::new();
    r.push(("X-Powered-By".to_string(), "Rust".to_string()));
    r.push(("User-Agent".to_string(), "Rust Httpie".to_string()));
    assert(entries_view(r@) =~= seq![
        ("X-Powered-By"@, "Rust"@),
        ("User-Agent"@, "Rust Httpie"@),
    ]);
    r
}

} // verus!
