use event_adapter::body::Body;
use event_adapter::error::ParseError;
use event_adapter::header::check_header_value;
use event_adapter::header::parse_header_name;
use event_adapter::header::parse_headers;
use event_adapter::method::Method;
use event_adapter::request::VercelRequest;

fn req(
    host: &str,
    path: &str,
    method: &str,
    headers: &[(&str, &str)],
    body: Option<&str>,
    encoding: Option<&str>,
) -> VercelRequest {
    VercelRequest {
        host: host.to_string(),
        path: path.to_string(),
        method: Method::parse(method).unwrap(),
        headers: headers.iter().map(|(n, v)| (n.to_string(), v.to_string())).collect(),
        body: body.map(|s| s.to_string()),
        encoding: encoding.map(|s| s.to_string()),
    }
}

#[test]
fn get_without_body() {
    let r = req("example.com", "/foo?x=1", "GET", &[], None, None).to_request();
    assert_eq!(r.method.as_str(), "GET");
    assert_eq!(r.uri, "https://example.com/foo?x=1");
    assert!(r.headers.is_empty());
    assert_eq!(r.body, Body::Empty);
    assert!(r.body.bytes().is_empty());
}

#[test]
fn post_with_text_body() {
    let r = req(
        "a.co",
        "/",
        "POST",
        &[("content-type", "text/plain")],
        Some("hello"),
        None,
    )
    .to_request();
    assert_eq!(r.method.as_str(), "POST");
    assert_eq!(r.uri, "https://a.co/");
    assert_eq!(r.headers, vec![("content-type".to_string(), "text/plain".to_string())]);
    assert_eq!(r.body, Body::Text("hello".to_string()));
    assert_eq!(r.body.bytes(), b"hello".to_vec());
}

#[test]
fn post_with_base64_body() {
    let r = req("a.co", "/", "POST", &[], Some("aGVsbG8="), Some("base64")).to_request();
    assert_eq!(r.body, Body::Binary(b"hello".to_vec()));
    assert_eq!(r.body.bytes(), b"hello".to_vec());
}

#[test]
fn post_with_invalid_base64_body() {
    let r = req("a.co", "/", "POST", &[], Some("not-valid-base64!!"), Some("base64")).to_request();
    assert_eq!(r.body, Body::Empty);
    assert!(r.body.bytes().is_empty());
}

#[test]
fn absent_body_ignores_encoding() {
    let r = req("a.co", "/", "POST", &[], None, Some("base64")).to_request();
    assert_eq!(r.body, Body::Empty);
}

#[test]
fn other_encoding_keeps_literal_text() {
    let r = req("a.co", "/", "POST", &[], Some("aGVsbG8="), Some("utf8")).to_request();
    assert_eq!(r.body, Body::Text("aGVsbG8=".to_string()));
    assert_eq!(r.body.bytes(), b"aGVsbG8=".to_vec());
}

#[test]
fn empty_text_body_stays_text() {
    let r = req("a.co", "/", "POST", &[], Some(""), None).to_request();
    assert_eq!(r.body, Body::Text(String::new()));
    assert!(r.body.bytes().is_empty());
}

#[test]
fn empty_base64_body_decodes_to_no_bytes() {
    let r = req("a.co", "/", "POST", &[], Some(""), Some("base64")).to_request();
    assert_eq!(r.body, Body::Binary(Vec::new()));
}

#[test]
fn base64_binary_round_bytes() {
    // 0x00 0xff 0x10 encoded: "AP8Q"
    let r = req("a.co", "/", "POST", &[], Some("AP8Q"), Some("base64")).to_request();
    assert_eq!(r.body, Body::Binary(vec![0x00, 0xff, 0x10]));
}

#[test]
fn headers_are_carried_over_exactly() {
    let headers = [
        ("x-one", "1"),
        ("x-two", "2"),
        ("x-one", "again"),
    ];
    let r = req("h.example", "/p", "PUT", &headers, None, None).to_request();
    let expect: Vec<(String, String)> =
        headers.iter().map(|(n, v)| (n.to_string(), v.to_string())).collect();
    assert_eq!(r.headers, expect);
}

#[test]
fn uri_is_scheme_host_path_verbatim() {
    let r = req("Example.COM", "/A/B%20C?q=1&r=2", "GET", &[], None, None).to_request();
    assert_eq!(r.uri, "https://Example.COM/A/B%20C?q=1&r=2");
}

#[test]
fn method_parse_normalizes_case() {
    let m = Method::parse("get").unwrap();
    assert_eq!(m.as_str(), "GET");
    let m = Method::parse("pAtCh").unwrap();
    assert_eq!(m.as_str(), "PATCH");
    let m = Method::parse("custom-verb.1").unwrap();
    assert_eq!(m.as_str(), "CUSTOM-VERB.1");
}

#[test]
fn method_parse_rejects_invalid_tokens() {
    assert_eq!(Method::parse(""), Err(ParseError::MalformedPayload));
    assert_eq!(Method::parse("GE T"), Err(ParseError::MalformedPayload));
    assert_eq!(Method::parse("GET/"), Err(ParseError::MalformedPayload));
    assert_eq!(Method::parse("G\u{e9}T"), Err(ParseError::MalformedPayload));
}

#[test]
fn header_name_parse_normalizes_and_rejects() {
    assert_eq!(parse_header_name("Content-Type"), Ok("content-type".to_string()));
    assert_eq!(parse_header_name("x-ok"), Ok("x-ok".to_string()));
    assert_eq!(parse_header_name(""), Err(ParseError::MalformedPayload));
    assert_eq!(parse_header_name("bad name"), Err(ParseError::MalformedPayload));
    assert_eq!(parse_header_name("bad:name"), Err(ParseError::MalformedPayload));
}

#[test]
fn header_value_check() {
    assert!(check_header_value(""));
    assert!(check_header_value("text/plain; charset=utf-8"));
    assert!(check_header_value("tab\tis fine"));
    assert!(check_header_value("caf\u{e9}"));
    assert!(!check_header_value("line\nbreak"));
    assert!(!check_header_value("del\u{7f}ete"));
}

#[test]
fn parse_headers_keeps_order_and_lowercases() {
    let raw = vec![
        ("X-Second".to_string(), "b".to_string()),
        ("X-First".to_string(), "a".to_string()),
        ("X-Second".to_string(), "c".to_string()),
    ];
    let hs = parse_headers(raw).unwrap();
    assert_eq!(
        hs,
        vec![
            ("x-second".to_string(), "b".to_string()),
            ("x-first".to_string(), "a".to_string()),
            ("x-second".to_string(), "c".to_string()),
        ]
    );
}

#[test]
fn parse_headers_rejects_bad_entries() {
    let raw = vec![("ok".to_string(), "fine".to_string()), ("".to_string(), "x".to_string())];
    assert_eq!(parse_headers(raw), Err(ParseError::MalformedPayload));
    let raw = vec![("ok".to_string(), "bad\u{0}value".to_string())];
    assert_eq!(parse_headers(raw), Err(ParseError::MalformedPayload));
}

#[test]
fn body_bytes_of_text_are_utf8() {
    let b = Body::Text("caf\u{e9}".to_string());
    assert_eq!(b.bytes(), vec![0x63, 0x61, 0x66, 0xc3, 0xa9]);
}

#[test]
fn parse_error_message() {
    assert_eq!(ParseError::MalformedPayload.message(), "malformed payload");
}
