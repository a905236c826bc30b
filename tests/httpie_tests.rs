use httpie::error::HttpieError;
use httpie::kv::{body_entries, parse_kv_pair, KvPair};
use httpie::render::{
    body_format, body_from_pretty, render_body, render_response, status_line, BodyFormat,
    ResponseView,
};
use httpie::request::{default_headers, get_request, post_request, Method};
use httpie::url_check::parse_url;

fn pair(k: &str, v: &str) -> KvPair {
    KvPair { k: k.to_string(), v: v.to_string() }
}

fn strings(ts: &[&str]) -> Vec<String> {
    ts.iter().map(|t| t.to_string()).collect()
}

fn validation_input(e: HttpieError) -> String {
    match e {
        HttpieError::Validation { input } => input,
        HttpieError::Format { reason } => panic!("expected a validation error, got {}", reason),
    }
}

#[test]
fn url_with_scheme_and_host_is_kept() {
    for u in ["https://example.com", "http://localhost:8080/a?b=c", "https://example.com/status/200"] {
        assert_eq!(parse_url(u).unwrap(), u);
    }
}

#[test]
fn url_without_scheme_is_rejected() {
    for u in ["example.com", "", "/status/200", "localhost"] {
        assert_eq!(validation_input(parse_url(u).unwrap_err()), u);
    }
}

#[test]
fn url_without_host_is_rejected() {
    for u in ["mailto:someone", "data:text/plain,hi"] {
        assert_eq!(validation_input(parse_url(u).unwrap_err()), u);
    }
}

#[test]
fn pair_splits_on_first_separator() {
    let p = parse_kv_pair("a=b=c").unwrap();
    assert_eq!(p.k, "a");
    assert_eq!(p.v, "b=c");
    let p = KvPair::from_str("name=tom").unwrap();
    assert_eq!((p.k.as_str(), p.v.as_str()), ("name", "tom"));
}

#[test]
fn pair_with_empty_sides() {
    let p = parse_kv_pair("=x").unwrap();
    assert_eq!((p.k.as_str(), p.v.as_str()), ("", "x"));
    let p = parse_kv_pair("k=").unwrap();
    assert_eq!((p.k.as_str(), p.v.as_str()), ("k", ""));
    let p = parse_kv_pair("ключ=значение").unwrap();
    assert_eq!((p.k.as_str(), p.v.as_str()), ("ключ", "значение"));
}

#[test]
fn pair_without_separator_fails() {
    for t in ["abc", "", "name:tom"] {
        assert_eq!(validation_input(parse_kv_pair(t).unwrap_err()), t);
    }
}

#[test]
fn body_of_two_pairs() {
    let body = body_entries(&vec![pair("name", "tom"), pair("age", "18")]);
    assert_eq!(
        body,
        vec![("name".to_string(), "tom".to_string()), ("age".to_string(), "18".to_string())]
    );
}

#[test]
fn body_last_write_wins() {
    let body = body_entries(&vec![pair("a", "1"), pair("b", "2"), pair("a", "3")]);
    assert_eq!(
        body,
        vec![("a".to_string(), "3".to_string()), ("b".to_string(), "2".to_string())]
    );
    assert!(body_entries(&vec![]).is_empty());
}

#[test]
fn post_request_builds_body() {
    let q = post_request("https://example.com/post", &strings(&["name=tom", "age=18"])).unwrap();
    assert_eq!(q.method, Method::Post);
    assert_eq!(q.url, "https://example.com/post");
    assert_eq!(
        q.body,
        vec![("name".to_string(), "tom".to_string()), ("age".to_string(), "18".to_string())]
    );
}

#[test]
fn post_request_names_first_failure() {
    let e = post_request("example.com", &strings(&["bad"])).unwrap_err();
    assert_eq!(validation_input(e), "example.com");
    let e = post_request("https://example.com", &strings(&["a=1", "bad", "worse"])).unwrap_err();
    assert_eq!(validation_input(e), "bad");
}

#[test]
fn get_request_checks_url() {
    let q = get_request("https://example.com/status/200").unwrap();
    assert_eq!(q.method, Method::Get);
    assert_eq!(q.url, "https://example.com/status/200");
    assert!(q.body.is_empty());
    assert_eq!(validation_input(get_request("nope").unwrap_err()), "nope");
}

#[test]
fn fixed_headers() {
    assert_eq!(
        default_headers(),
        vec![
            ("X-Powered-By".to_string(), "Rust".to_string()),
            ("User-Agent".to_string(), "Rust Httpie".to_string()),
        ]
    );
}

#[test]
fn json_content_type_is_pretty_printed() {
    let f = body_format(Some("application/json"));
    assert_eq!(f, BodyFormat::Json);
    let out = render_body(f, "{\"a\":1}").unwrap();
    assert_ne!(out, "{\"a\":1}");
    assert_eq!(out, "{\n  \"a\": 1\n}");
}

#[test]
fn plain_text_is_verbatim() {
    let f = body_format(Some("text/plain"));
    assert_eq!(f, BodyFormat::Raw);
    assert_eq!(render_body(f, "hello").unwrap(), "hello");
}

#[test]
fn missing_or_unparsable_content_type_is_raw() {
    assert_eq!(body_format(None), BodyFormat::Raw);
    assert_eq!(body_format(Some("not a media type")), BodyFormat::Raw);
    assert_eq!(render_body(BodyFormat::Raw, "{\"a\":1}").unwrap(), "{\"a\":1}");
}

#[test]
fn pretty_result_is_passed_on() {
    assert_eq!(body_from_pretty(Ok("x".to_string())).unwrap(), "x");
    match body_from_pretty(Err("why".to_string())) {
        Err(HttpieError::Format { reason }) => assert_eq!(reason, "why"),
        _ => panic!("expected a format error"),
    }
}

#[test]
fn status_line_joins_version_and_status() {
    assert_eq!(status_line("HTTP/1.1", "200 OK"), "HTTP/1.1 200 OK");
}

#[test]
fn whole_json_response_is_rendered_in_order() {
    let headers = vec![
        ("content-type".to_string(), "application/json".to_string()),
        ("content-length".to_string(), "7".to_string()),
    ];
    let view = ResponseView {
        version: "HTTP/1.1".to_string(),
        status: "200 OK".to_string(),
        headers: headers.clone(),
        content_type: Some("application/json".to_string()),
        body: "{\"a\":1}".to_string(),
    };
    let out = render_response(view).unwrap();
    assert!(out.status_line.contains("200"));
    assert_eq!(out.status_line, "HTTP/1.1 200 OK");
    assert_eq!(out.headers, headers);
    assert_eq!(out.body, "{\n  \"a\": 1\n}");
}

#[test]
fn whole_text_response_keeps_body() {
    let view = ResponseView {
        version: "HTTP/2.0".to_string(),
        status: "404 Not Found".to_string(),
        headers: vec![],
        content_type: Some("text/plain".to_string()),
        body: "hello".to_string(),
    };
    let out = render_response(view).unwrap();
    assert_eq!(out.status_line, "HTTP/2.0 404 Not Found");
    assert_eq!(out.body, "hello");
}
