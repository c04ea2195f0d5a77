use spotify_dj::callback::{
    callback_reply, extract_param, first_line_of, parse_callback_bytes, parse_callback_request,
    word_bounds, CallbackError,
};
use spotify_dj::text::chars_of;

#[test]
fn extract_param_finds_each_parameter() {
    let path = "/callback?code=abc123&state=xyz";
    assert_eq!(extract_param(path, "code"), Some("abc123"));
    assert_eq!(extract_param(path, "state"), Some("xyz"));
    assert_eq!(extract_param(path, "error"), None);
}

#[test]
fn extract_param_needs_a_query() {
    assert_eq!(extract_param("/callback", "code"), None);
    assert_eq!(extract_param("/callback?", "code"), None);
}

#[test]
fn extract_param_reads_only_up_to_the_next_question_mark() {
    assert_eq!(extract_param("/cb?a=1?code=2", "code"), None);
    assert_eq!(extract_param("/cb?a=1?code=2", "a"), Some("1"));
}

#[test]
fn extract_param_takes_the_first_match_and_matches_prefixes() {
    assert_eq!(extract_param("/cb?code=1&code=2", "code"), Some("1"));
    assert_eq!(extract_param("/cb?codex=1&code=2", "code"), Some("2"));
    assert_eq!(extract_param("/cb?code=", "code"), Some(""));
}

#[test]
fn first_line_strips_the_line_ending() {
    assert_eq!(first_line_of("GET / HTTP/1.1\r\nHost: x\r\n"), Some("GET / HTTP/1.1"));
    assert_eq!(first_line_of("one\ntwo"), Some("one"));
    assert_eq!(first_line_of("only"), Some("only"));
    assert_eq!(first_line_of("bare\r"), Some("bare\r"));
    assert_eq!(first_line_of("\n"), Some(""));
    assert_eq!(first_line_of(""), None);
}

#[test]
fn word_bounds_skip_runs_of_spaces() {
    let v = chars_of("  GET \t /path  HTTP/1.1");
    assert_eq!(word_bounds(&v, 0), Some((2, 5)));
    assert_eq!(word_bounds(&v, 1), Some((8, 13)));
    assert_eq!(word_bounds(&v, 2), Some((15, 23)));
    assert_eq!(word_bounds(&v, 3), None);
}

#[test]
fn callback_with_code() {
    let request = "GET /callback?code=AQB123&state=s HTTP/1.1\r\nHost: 127.0.0.1:8888\r\n\r\n";
    assert_eq!(parse_callback_request(request), Ok("AQB123".to_string()));
}

#[test]
fn callback_with_error() {
    let request = "GET /callback?error=access_denied&state=s HTTP/1.1\r\n\r\n";
    let e = parse_callback_request(request).unwrap_err();
    assert_eq!(e, CallbackError::Denied { error: "access_denied".to_string() });
    assert_eq!(e.message(), "Spotify OAuth error: access_denied");
}

#[test]
fn callback_error_without_value_is_unknown() {
    let e = parse_callback_request("GET /x?state=1&myerror=2 HTTP/1.1\r\n").unwrap_err();
    assert_eq!(e, CallbackError::Denied { error: "unknown".to_string() });
}

#[test]
fn callback_failures() {
    let e = parse_callback_request("").unwrap_err();
    assert_eq!(e, CallbackError::EmptyRequest);
    assert_eq!(e.message(), "Empty HTTP request received");
    let e = parse_callback_request("GET\r\n").unwrap_err();
    assert_eq!(e, CallbackError::MalformedRequestLine);
    assert_eq!(e.message(), "Malformed HTTP request line");
    let e = parse_callback_request("GET /callback?state=1 HTTP/1.1\r\n").unwrap_err();
    assert_eq!(e, CallbackError::MissingCode);
    assert_eq!(e.message(), "No authorization code in callback URL");
}

#[test]
fn callback_bytes_are_decoded() {
    let bytes = b"GET /callback?code=xyz HTTP/1.1\r\n\r\n";
    assert_eq!(parse_callback_bytes(bytes), Ok("xyz".to_string()));
    let bad: &[u8] = &[0x47, 0x45, 0x54, 0x20, 0xff, 0x20, 0x48];
    assert_eq!(parse_callback_bytes(bad), Err(CallbackError::MissingCode));
}

#[test]
fn reply_page() {
    assert!(callback_reply().starts_with("HTTP/1.1 200 OK\r\n"));
    assert!(callback_reply().contains("<h1>Authentication successful!</h1>"));
}
