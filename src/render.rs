//! Rendering of a response: status line, headers, and a body formatted by its content type.
use vstd::prelude::*;
use vstd::string::StringExecFns;

use crate::error::HttpieError;

verus! {

/// Whether `mime::Mime`'s parser reads `s` as a media type.
pub uninterp spec fn mime_parses(s: Seq<char>) -> bool;

/// Whether the media type parsed from `s` equals `mime::APPLICATION_JSON`.
pub uninterp spec fn mime_is_application_json(s: Seq<char>) -> bool;

/// Whether `jsonxf::pretty_print` accepts `s` as JSON.
pub uninterp spec fn pretty_accepts(s: Seq<char>) -> bool;

/// What `jsonxf::pretty_print` makes of `s`: the same JSON, re-indented.
pub uninterp spec fn pretty_of(s: Seq<char>) -> Seq<char>;

/// Relies on `mime::Mime`'s `FromStr` to parse a `Content-Type` value, and on `Mime`'s
/// equality to compare the result with `mime::APPLICATION_JSON`.
///
/// Neither panics on any `&str`. The parser walks the input byte by byte and slices it
/// only at positions of ASCII bytes it has matched (`/`, `;`, `=`, `"`, space), one past
/// them, or at the end, all character boundaries. A parsed value compares with the
/// constant through `mime_eq_str`; with parameters present, `params_eq` slices at the
/// `;` position and returns `false` as soon as it looks for `=` in `application/json`.
#[verifier::external_body]
fn parsed_mime_is_json(s: &str) -> (r: Option<bool>)
    ensures
        r is Some <==> mime_parses(s@),
        r matches Some(j) ==> j == mime_is_application_json(s@),
{
    s.parse::<mime::Mime>().ok().map(|m| m == mime::APPLICATION_JSON)
}

/// Relies on `jsonxf::pretty_print`, which re-indents JSON text or says why it cannot.
///
/// It does not panic on any `&str`. `Formatter::format_buf` slices its buffer only at
/// `n..n + 1` with `n` below the length, or up to a match that `memchr` found in the
/// rest. Its one counter, the nesting depth, grows by at most one per input byte.
#[verifier::external_body]
fn pretty_print(s: &str) -> (r: Result<String, String>)
    ensures
        r is Ok <==> pretty_accepts(s@),
        r matches Ok(p) ==> p@ == pretty_of(s@),
{
    jsonxf::pretty_print(s)
}

/// How a response body is shown.
#[derive(Debug, Clone, Copy, PartialEq, Eq, Structural)]
pub enum BodyFormat {
    /// Re-indented as JSON.
    Json,
    /// As received.
    Raw,
}

/// Whether a `Content-Type` value declares exactly `application/json`.
pub open spec fn declares_json(content_type: Option<Seq<char>>) -> bool {
    match content_type {
        Some(ct) => mime_parses(ct) && mime_is_application_json(ct),
        None => false,
    }
}

/// The format for a body whose `Content-Type` is `content_type`: JSON when the value parses
/// as a media type equal to `application/json`; raw when it is missing, unparsable, or
/// any other type.
pub fn body_format(content_type: Option<&str>) -> (r: BodyFormat)
    ensures
        (r == BodyFormat::Json) == declares_json(
            match content_type {
                Some(ct) => Some(ct@),
                None => None,
            },
        ),
{
    match content_type {
        Some(ct) => match parsed_mime_is_json(ct) {
            Some(true) => BodyFormat::Json,
            _ => BodyFormat::Raw,
        },
        None => BodyFormat::Raw,
    }
}

/// The rendered body, given what the pretty-printer returned for it: its text, or a
/// format error carrying the printer's reason.
pub fn body_from_pretty(pretty: Result<String, String>) -> (r: Result<String, HttpieError>)
    ensures
        pretty matches Ok(p) ==> r == Ok::<String, HttpieError>(p),
        pretty matches Err(e) ==> (r matches Err(HttpieError::Format { reason }) && reason == e),
{
    match pretty {
        Ok(p) => Ok(p),
        Err(e) => Err(HttpieError::Format { reason: e }),
    }
}

/// The text shown for `body` in format `format`: a raw body verbatim; a JSON body
/// pretty-printed, or a format error when it is not JSON.
pub fn render_body(format: BodyFormat, body: &str) -> (r: Result<String, HttpieError>)
    ensures
        format == BodyFormat::Raw ==> (r matches Ok(t) && t@ == body@),
        format == BodyFormat::Json ==> (r is Ok <==> pretty_accepts(body@)),
        format == BodyFormat::Json ==> (r matches Ok(t) ==> t@ == pretty_of(body@)),
        r matches Err(e) ==> e is Format,
{
    match format {
        BodyFormat::Raw => Ok(body.to_string()),
        BodyFormat::Json => body_from_pretty(pretty_print(body)),
    }
}

/// The status line: the protocol version, a space, and the status.
pub open spec fn status_line_of(version: Seq<char>, status: Seq<char>) -> Seq<char> {
    version + seq![' '] + status
}

/// Joins a protocol version such as `HTTP/1.1` and a status such as `200 OK`.
pub fn status_line(version: &str, status: &str) -> (r: String)
    ensures
        r@ == status_line_of(version@, status@),
{
    let mut line = version.to_string();
    line.append(" ");
    line.append(status);
    proof {
        reveal_strlit(" ");
        assert(line@ =~= status_line_of(version@, status@));
    }
    line
}

/// The parts of a received response that are shown.
#[derive(Debug)]
pub struct ResponseView {
    /// Protocol version, such as `HTTP/1.1`.
    pub version: String,
    /// Status code and reason, such as `200 OK`.
    pub status: String,
    /// Header names and values, in the order received.
    pub headers: Vec<(String, String)>,
    /// The `Content-Type` value, when the response has one that is readable text.
    pub content_type: Option<String>,
    /// The whole body as text.
    pub body: String,
}

/// A response ready to print: status line, then headers, then body.
#[derive(Debug)]
pub struct RenderedResponse {
    pub status_line: String,
    /// The format the body was rendered in.
    pub format: BodyFormat,
    pub headers: Vec<(String, String)>,
    pub body: String,
}

/// The body format chosen for a response's `Content-Type`.
pub open spec fn format_for(content_type: Option<String>) -> BodyFormat {
    if declares_json(
        match content_type {
            Some(ct) => Some(ct@),
            None => None,
        },
    ) {
        BodyFormat::Json
    } else {
        BodyFormat::Raw
    }
}

/// Renders a response: its status line, its headers unchanged, and its body formatted by
/// its content type. Fails only when the body is declared JSON and is not.
pub fn render_response(view: ResponseView) -> (r: Result<RenderedResponse, HttpieError>)
    ensures
        r is Err <==> (format_for(view.content_type) == BodyFormat::Json && !pretty_accepts(
            view.body@,
        )),
        r matches Err(e) ==> e is Format,
        r matches Ok(o) ==> {
            &&& o.status_line@ == status_line_of(view.version@, view.status@)
            &&& o.headers@ == view.headers@
            &&& o.format == format_for(view.content_type)
            &&& format_for(view.content_type) == BodyFormat::Raw ==> o.body@ == view.body@
            &&& format_for(view.content_type) == BodyFormat::Json ==> o.body@ == pretty_of(
                view.body@,
            )
        },
{
    let line = status_line(view.version.as_str(), view.status.as_str());
    let format = match &view.content_type {
        Some(ct) => body_format(Some(ct.as_str())),
        None => body_format(None),
    };
    match render_body(format, view.body.as_str()) {
        Ok(body) => Ok(RenderedResponse { status_line: line, format, headers: view.headers, body }),
        Err(e) => Err(e),
    }
}

} // verus!
