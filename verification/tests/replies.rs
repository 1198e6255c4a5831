use backend::http::{
    bad_request, hello, redirect_to_profile, server_error, Header, HttpReply, STATUS_BAD_REQUEST,
    STATUS_INTERNAL_SERVER_ERROR, STATUS_OK, STATUS_PERMANENT_REDIRECT,
};
use backend::json::{error_body, wrap_error};

#[test]
fn hello_greets_with_ok() {
    let reply = hello();
    assert_eq!(reply.status, 200);
    assert!(reply.headers.is_empty());
    assert_eq!(reply.body, "Hello world!");
}

#[test]
fn status_constants_have_their_http_values() {
    assert_eq!(STATUS_OK, 200);
    assert_eq!(STATUS_PERMANENT_REDIRECT, 308);
    assert_eq!(STATUS_BAD_REQUEST, 400);
    assert_eq!(STATUS_INTERNAL_SERVER_ERROR, 500);
}

#[test]
fn bad_request_has_no_header_and_no_body() {
    assert_eq!(
        bad_request(),
        HttpReply { status: 400, headers: vec![], body: String::new() }
    );
}

#[test]
fn server_error_carries_the_message_as_json() {
    let reply = server_error("connection refused");
    assert_eq!(reply.status, 500);
    assert!(reply.headers.is_empty());
    assert_eq!(reply.body, "{\"error\":\"connection refused\"}");
}

#[test]
fn redirect_points_to_the_profile_page() {
    let reply = redirect_to_profile();
    assert_eq!(reply.status, 308);
    assert_eq!(
        reply.headers,
        vec![Header {
            name: "Location".to_string(),
            value: "http://localhost:5173/profile".to_string(),
        }]
    );
    assert_eq!(reply.body, "");
}

#[test]
fn header_new_keeps_both_parts() {
    let header = Header::new("Accept", "application/json");
    assert_eq!(header.name, "Accept");
    assert_eq!(header.value, "application/json");
}

#[test]
fn error_body_is_an_object_with_one_member() {
    assert_eq!(error_body("boom"), "{\"error\":\"boom\"}");
}

#[test]
fn error_body_of_the_empty_message() {
    assert_eq!(error_body(""), "{\"error\":\"\"}");
}

#[test]
fn error_body_escapes_quotes_backslashes_and_controls() {
    assert_eq!(
        error_body("a \"b\" \\ c\nd\te\u{1}"),
        "{\"error\":\"a \\\"b\\\" \\\\ c\\nd\\te\\u0001\"}"
    );
}

#[test]
fn error_body_keeps_text_that_is_not_ascii() {
    assert_eq!(error_body("caf\u{e9}"), "{\"error\":\"caf\u{e9}\"}");
}

#[test]
fn error_body_parses_back_to_the_message() {
    let message = "line 1 column 2: expected `\"`\r\n";
    let parsed: serde_json::Value = serde_json::from_str(&error_body(message)).unwrap();
    let object = parsed.as_object().unwrap();
    assert_eq!(object.len(), 1);
    assert_eq!(object.get("error").and_then(|value| value.as_str()), Some(message));
}

#[test]
fn wrap_error_frames_the_literal_as_it_is() {
    assert_eq!(wrap_error("\"x\""), "{\"error\":\"x\"}");
    assert_eq!(wrap_error(""), "{\"error\":}");
}
