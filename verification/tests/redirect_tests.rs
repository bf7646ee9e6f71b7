use ynab_updater::http_redirect::{
    extract_code, pct_decode, request_head_complete, success_response, RedirectError,
};

#[test]
fn extracts_code_from_redirect() {
    let request = b"GET /?state=0&code=abc123 HTTP/1.1\r\nHost: local\r\n\r\n";
    let code = extract_code(request).expect("code expected");
    assert_eq!(code, b"abc123".to_vec());
}

#[test]
fn missing_code_is_fatal() {
    let request = b"GET /?state=0 HTTP/1.1\r\nHost: local\r\n\r\n";
    assert_eq!(extract_code(request), Err(RedirectError::MissingCode));
}

#[test]
fn path_without_query_is_missing_code() {
    let request = b"GET / HTTP/1.1\r\n\r\n";
    assert_eq!(extract_code(request), Err(RedirectError::MissingCode));
}

#[test]
fn garbage_is_malformed() {
    assert_eq!(extract_code(b"\x16\x03\x01\x02\x00\x01"), Err(RedirectError::MalformedRequest));
    assert_eq!(extract_code(b""), Err(RedirectError::MalformedRequest));
    // A request line needs an HTTP version after the target.
    assert_eq!(extract_code(b"GET /?code=x\r\n\r\n"), Err(RedirectError::MalformedRequest));
}

#[test]
fn code_value_is_percent_decoded() {
    let request = b"GET /?code=a%2Fb+c HTTP/1.1\r\n\r\n";
    let code = extract_code(request).expect("code expected");
    assert_eq!(code, b"a/b c".to_vec());
}

#[test]
fn first_matching_parameter_wins() {
    let request = b"GET /?code=first&code=second HTTP/1.1\r\n\r\n";
    let code = extract_code(request).expect("code expected");
    assert_eq!(code, b"first".to_vec());
}

#[test]
fn key_match_is_exact_after_decoding() {
    // `c%6fde` decodes to `code`, so it names the same parameter; a
    // key that merely starts with `code` does not.
    let request = b"GET /?codex=no&c%6fde=yes HTTP/1.1\r\n\r\n";
    let code = extract_code(request).expect("code expected");
    assert_eq!(code, b"yes".to_vec());
}

#[test]
fn bare_key_has_empty_value() {
    let request = b"GET /?code HTTP/1.1\r\n\r\n";
    let code = extract_code(request).expect("code expected");
    assert_eq!(code, b"".to_vec());
}

#[test]
fn head_completeness_tracks_blank_line() {
    assert!(!request_head_complete(b""));
    assert!(!request_head_complete(b"GET /?code=abc"));
    assert!(!request_head_complete(b"GET /?code=abc HTTP/1.1\r\nHost: x\r\n"));
    assert!(request_head_complete(b"GET /?code=abc HTTP/1.1\r\n\r\n"));
    assert!(request_head_complete(b"GET / HTTP/1.1\r\nHost: x\r\n\r\ntrailing"));
}

#[test]
fn percent_decoding_passes_bad_escapes_through() {
    assert_eq!(pct_decode(b"a%zzb"), b"a%zzb".to_vec());
    assert_eq!(pct_decode(b"a%2"), b"a%2".to_vec());
    assert_eq!(pct_decode(b"%41+%61"), b"A a".to_vec());
}

#[test]
fn response_keeps_browser_happy() {
    assert_eq!(success_response(), "HTTP/1.1 200 OK\r\nContent-Length: 7\r\n\r\nsuccess");
}
