use hurley::error::RurlError;
use hurley::http::headers::Headers;
use hurley::http::request::{parse_method, split_header_line, HttpRequest};
use reqwest::Method;
use std::time::Duration;

#[test]
fn test_new_request() {
    let request = HttpRequest::new("https://example.com");
    assert_eq!(request.url, "https://example.com");
    assert_eq!(request.method, Method::GET.as_str());
    assert!(request.follow_redirects);
}

#[test]
fn test_method_post() {
    let request = HttpRequest::new("https://example.com")
        .method("POST")
        .unwrap();
    assert_eq!(request.method, Method::POST.as_str());
}

#[test]
fn test_method_case_insensitive() {
    let request = HttpRequest::new("https://example.com")
        .method("post")
        .unwrap();
    assert_eq!(request.method, Method::POST.as_str());
}

#[test]
fn test_invalid_method() {
    // Empty string is truly invalid
    let result = HttpRequest::new("https://example.com")
        .method("");
    assert!(result.is_err());
}

#[test]
fn test_custom_method_allowed() {
    // reqwest allows custom methods like "CUSTOM"
    let result = HttpRequest::new("https://example.com")
        .method("CUSTOM");
    assert!(result.is_ok());
}

#[test]
fn request_test_headers() {
    let request = HttpRequest::new("https://example.com")
        .header("Content-Type", "application/json")
        .header("Authorization", "Bearer token");
    assert_eq!(request.headers.len(), 2);
    assert_eq!(request.headers.get("Content-Type"), Some(&"application/json".to_string()));
}

#[test]
fn test_headers_from_strings() {
    let headers = vec![
        "Content-Type: application/json".to_string(),
        "X-Custom: value".to_string(),
    ];
    let request = HttpRequest::new("https://example.com")
        .headers_from_strings(&headers)
        .unwrap();
    assert_eq!(request.headers.get("Content-Type"), Some(&"application/json".to_string()));
    assert_eq!(request.headers.get("X-Custom"), Some(&"value".to_string()));
}

#[test]
fn test_invalid_header_format() {
    let headers = vec!["invalid-header-no-colon".to_string()];
    let result = HttpRequest::new("https://example.com")
        .headers_from_strings(&headers);
    assert!(result.is_err());
}

#[test]
fn test_body() {
    let request = HttpRequest::new("https://example.com")
        .body(r#"{"key": "value"}"#);
    assert_eq!(request.body, Some(r#"{"key": "value"}"#.to_string()));
}

#[test]
fn test_timeout() {
    let request = HttpRequest::new("https://example.com")
        .timeout(Duration::from_secs(60));
    assert_eq!(request.timeout, Duration::from_secs(60));
}

#[test]
fn new_request_has_the_documented_defaults() {
    let request = HttpRequest::new("https://example.com");
    assert_eq!(request.method, "GET");
    assert!(request.headers.is_empty());
    assert_eq!(request.headers.len(), 0);
    assert_eq!(request.body, None);
    assert_eq!(request.timeout, Duration::from_secs(30));
    assert_eq!(request.redirect_limit(), Some(10));
    assert_eq!(request.follow_redirects(false).redirect_limit(), None);
}

#[test]
fn a_method_is_taken_in_upper_case_and_an_invalid_one_is_reported_as_given() {
    assert_eq!(parse_method("delete").unwrap(), "DELETE");
    assert_eq!(parse_method("Patch").unwrap(), "PATCH");
    assert_eq!(parse_method("m-search").unwrap(), "M-SEARCH");
    match parse_method("get it") {
        Err(RurlError::InvalidMethod(given)) => assert_eq!(given, "get it"),
        other => panic!("unexpected: {:?}", other),
    }
    match HttpRequest::new("https://example.com").method("") {
        Err(RurlError::InvalidMethod(given)) => assert_eq!(given, ""),
        other => panic!("unexpected: {:?}", other),
    }
}

#[test]
fn setting_a_header_again_replaces_its_value() {
    let request = HttpRequest::new("https://example.com")
        .header("Accept", "text/plain")
        .header("X-Trace", "1")
        .header("Accept", "application/json");
    assert_eq!(request.headers.len(), 2);
    assert_eq!(request.headers.get("Accept"), Some(&"application/json".to_string()));
    assert_eq!(request.headers.get("X-Trace"), Some(&"1".to_string()));
    assert_eq!(request.headers.get("accept"), None);
    let names: Vec<&str> = request.headers.entries().iter().map(|f| f.0.as_str()).collect();
    assert_eq!(names, vec!["Accept", "X-Trace"]);
}

#[test]
fn headers_merge_with_the_right_hand_side_winning() {
    let mut base = Headers::new();
    base.insert("A".to_string(), "1".to_string());
    base.insert("B".to_string(), "2".to_string());
    let mut over = Headers::new();
    over.insert("B".to_string(), "3".to_string());
    over.insert("C".to_string(), "4".to_string());
    let copy = base.clone();
    base.extend_from(&over);
    assert_eq!(base.len(), 3);
    assert_eq!(base.get("A"), Some(&"1".to_string()));
    assert_eq!(base.get("B"), Some(&"3".to_string()));
    assert_eq!(base.get("C"), Some(&"4".to_string()));
    assert_eq!(copy.len(), 2);
    assert_eq!(copy.get("B"), Some(&"2".to_string()));
}

#[test]
fn a_header_line_splits_at_its_first_colon_and_is_trimmed() {
    assert_eq!(
        split_header_line("Location:  http://example.com:8080/x  "),
        Some(("Location".to_string(), "http://example.com:8080/x".to_string()))
    );
    assert_eq!(
        split_header_line(" \tX-Empty :\u{a0}"),
        Some(("X-Empty".to_string(), "".to_string()))
    );
    assert_eq!(split_header_line(":"), Some(("".to_string(), "".to_string())));
    assert_eq!(split_header_line("no colon here"), None);
    assert_eq!(split_header_line(""), None);
}

#[test]
fn header_lines_are_set_in_order_and_the_first_bad_one_is_reported() {
    let lines = vec!["A: 1".to_string(), "B: 2".to_string(), "A: 3".to_string()];
    let request = HttpRequest::new("https://example.com").headers_from_strings(&lines).unwrap();
    assert_eq!(request.headers.len(), 2);
    assert_eq!(request.headers.get("A"), Some(&"3".to_string()));
    let lines = vec!["A: 1".to_string(), "bad one".to_string(), "worse".to_string()];
    match HttpRequest::new("https://example.com").headers_from_strings(&lines) {
        Err(RurlError::InvalidHeader(line)) => assert_eq!(line, "bad one"),
        other => panic!("unexpected: {:?}", other),
    }
    let none: Vec<String> = Vec::new();
    let request = HttpRequest::new("https://example.com").headers_from_strings(&none).unwrap();
    assert!(request.headers.is_empty());
}

#[test]
fn a_copy_of_a_request_holds_the_same_values() {
    let request = HttpRequest::new("https://example.com")
        .method("post")
        .unwrap()
        .header("A", "1")
        .body("text")
        .timeout(Duration::from_millis(1500))
        .follow_redirects(false);
    let copy = request.clone();
    assert_eq!(copy.method, "POST");
    assert_eq!(copy.url, "https://example.com");
    assert_eq!(copy.headers.get("A"), Some(&"1".to_string()));
    assert_eq!(copy.body, Some("text".to_string()));
    assert_eq!(copy.timeout, Duration::from_millis(1500));
    assert!(!copy.follow_redirects);
}

#[test]
fn the_body_of_a_request_is_shown_indented_where_it_is_json() {
    let request = HttpRequest::new("https://example.com");
    assert_eq!(request.display_body(), None);
    let request = HttpRequest::new("https://example.com").body(r#"{"k":[1]}"#);
    assert_eq!(request.display_body(), Some("{\n  \"k\": [\n    1\n  ]\n}".to_string()));
    let request = HttpRequest::new("https://example.com").body("k=1");
    assert_eq!(request.display_body(), Some("k=1".to_string()));
}

#[test]
fn a_method_is_a_non_empty_text_of_method_characters() {
    for valid in ["GET", "X", "A-B.C_D", "!#$%&'*+-.^_`|~", "a1", "VERYLONGMETHODNAMEBEYONDFIFTEENBYTES"] {
        assert!(parse_method(valid).is_ok(), "{}", valid);
    }
    for invalid in ["", " ", "G T", "GET\n", "A/B", "A:B", "A(B)", "A@B", "A=B", "\u{e9}", "A\"B", "A,B", "{}"] {
        assert!(parse_method(invalid).is_err(), "{:?}", invalid);
    }
}
