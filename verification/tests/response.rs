use hurley::http::client::HttpClient;
use hurley::http::response::{HttpResponse, StatusClass};
use hurley::json::display_body;
use reqwest::StatusCode;
use std::time::Duration;

#[test]
fn test_is_success() {
    let response = HttpResponse::new(
        StatusCode::OK.as_u16(),
        Vec::new(),
        "OK".to_string(),
        Duration::from_millis(100),
    );
    assert!(response.is_success());
}

#[test]
fn test_is_not_success() {
    let response = HttpResponse::new(
        StatusCode::NOT_FOUND.as_u16(),
        Vec::new(),
        "Not Found".to_string(),
        Duration::from_millis(100),
    );
    assert!(!response.is_success());
}

fn with_status(status: u16) -> HttpResponse {
    HttpResponse::new(status, Vec::new(), String::new(), Duration::from_millis(1))
}

#[test]
fn success_is_exactly_the_range_from_200_to_299() {
    assert!(!with_status(199).is_success());
    assert!(with_status(200).is_success());
    assert!(with_status(204).is_success());
    assert!(with_status(299).is_success());
    assert!(!with_status(300).is_success());
    assert!(!with_status(0).is_success());
    assert!(!with_status(500).is_success());
}

#[test]
fn the_status_class_follows_the_hundreds() {
    assert_eq!(with_status(100).status_class(), StatusClass::Other);
    assert_eq!(with_status(200).status_class(), StatusClass::Success);
    assert_eq!(with_status(299).status_class(), StatusClass::Success);
    assert_eq!(with_status(301).status_class(), StatusClass::Other);
    assert_eq!(with_status(400).status_class(), StatusClass::ClientError);
    assert_eq!(with_status(499).status_class(), StatusClass::ClientError);
    assert_eq!(with_status(500).status_class(), StatusClass::ServerError);
    assert_eq!(with_status(599).status_class(), StatusClass::ServerError);
    assert_eq!(with_status(600).status_class(), StatusClass::Other);
}

#[test]
fn the_reason_is_the_standard_phrase_or_empty() {
    assert_eq!(with_status(200).reason(), "OK");
    assert_eq!(with_status(404).reason(), "Not Found");
    assert_eq!(with_status(503).reason(), "Service Unavailable");
    assert_eq!(with_status(299).reason(), "");
    assert_eq!(with_status(42).reason(), "");
}

#[test]
fn a_json_body_is_shown_indented_and_any_other_as_it_is() {
    assert_eq!(display_body(r#"{"a":[true,null],"b":1}"#), "{\n  \"a\": [\n    true,\n    null\n  ],\n  \"b\": 1\n}");
    assert_eq!(display_body("plain text"), "plain text");
    assert_eq!(display_body(""), "");
    let response = HttpResponse::new(200, Vec::new(), "[1, 2]".to_string(), Duration::from_millis(1));
    assert_eq!(response.display_body(), "[\n  1,\n  2\n]");
    assert_eq!(response.headers.len(), 0);
    assert_eq!(response.duration, Duration::from_millis(1));
}

#[test]
fn a_client_remembers_whether_it_is_verbose() {
    assert!(HttpClient::new(true).verbose());
    assert!(!HttpClient::new(false).verbose());
}

#[test]
fn the_status_line_names_protocol_code_and_reason() {
    assert_eq!(with_status(200).status_line(), "HTTP/1.1 200 OK");
    assert_eq!(with_status(404).status_line(), "HTTP/1.1 404 Not Found");
    assert_eq!(with_status(500).status_line(), "HTTP/1.1 500 Internal Server Error");
    assert_eq!(with_status(299).status_line(), "HTTP/1.1 299 ");
    assert_eq!(with_status(7).status_line(), "HTTP/1.1 7 ");
    assert_eq!(with_status(65535).status_line(), "HTTP/1.1 65535 ");
}

#[test]
fn the_status_line_is_built_from_any_code_and_reason() {
    assert_eq!(HttpResponse::status_line_with(200, "OK"), "HTTP/1.1 200 OK");
    assert_eq!(HttpResponse::status_line_with(0, ""), "HTTP/1.1 0 ");
    assert_eq!(HttpResponse::status_line_with(418, "I'm a teapot"), "HTTP/1.1 418 I'm a teapot");
    assert_eq!(HttpResponse::reason_or_empty(Some("Gone".to_string())), "Gone");
    assert_eq!(HttpResponse::reason_or_empty(None), "");
}
