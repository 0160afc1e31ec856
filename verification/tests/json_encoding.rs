use hello_service::http::Method;
use hello_service::json::encode_single_field_object;
use hello_service::router::handle_request;

fn encoded(key: &str, value: &str) -> String {
    let bytes = encode_single_field_object(key.as_bytes(), value.as_bytes());
    String::from_utf8(bytes).unwrap()
}

#[test]
fn encodes_the_greeting_object() {
    assert_eq!(
        encoded("message", "Hello from Axum!"),
        "{\"message\":\"Hello from Axum!\"}"
    );
}

#[test]
fn encodes_empty_strings() {
    assert_eq!(encoded("", ""), "{\"\":\"\"}");
}

#[test]
fn escapes_quotes_and_backslashes() {
    assert_eq!(encoded("k", "a\"b"), "{\"k\":\"a\\\"b\"}");
    assert_eq!(encoded("k", "a\\b"), "{\"k\":\"a\\\\b\"}");
    assert_eq!(encoded("a\"", "v"), "{\"a\\\"\":\"v\"}");
}

#[test]
fn escapes_named_control_characters() {
    assert_eq!(encoded("k", "a\u{8}b"), "{\"k\":\"a\\bb\"}");
    assert_eq!(encoded("k", "a\tb"), "{\"k\":\"a\\tb\"}");
    assert_eq!(encoded("k", "a\nb"), "{\"k\":\"a\\nb\"}");
    assert_eq!(encoded("k", "a\u{c}b"), "{\"k\":\"a\\fb\"}");
    assert_eq!(encoded("k", "a\rb"), "{\"k\":\"a\\rb\"}");
}

#[test]
fn escapes_other_control_characters_as_hex() {
    assert_eq!(encoded("k", "\u{1}"), "{\"k\":\"\\u0001\"}");
    assert_eq!(encoded("k", "\u{1f}"), "{\"k\":\"\\u001f\"}");
    assert_eq!(encoded("k", "\u{0}"), "{\"k\":\"\\u0000\"}");
}

#[test]
fn passes_non_ascii_text_through() {
    assert_eq!(encoded("k", "h\u{e9}llo"), "{\"k\":\"h\u{e9}llo\"}");
}

#[test]
fn greeting_body_deserializes_to_one_member_object() {
    let body = handle_request(Method::Get, "/hello").unwrap().body;
    let value: serde_json::Value = serde_json::from_slice(&body).unwrap();
    let object = value.as_object().unwrap();
    assert_eq!(object.len(), 1);
    assert_eq!(object.get("message").unwrap().as_str().unwrap(), "Hello from Axum!");
}

#[test]
fn escaped_output_deserializes_back() {
    for value in ["a\"b\\c", "line\nbreak\ttab", "\u{1}\u{1f}\r\u{c}\u{8}", "h\u{e9}llo"] {
        let bytes = encode_single_field_object(b"key", value.as_bytes());
        let parsed: serde_json::Value = serde_json::from_slice(&bytes).unwrap();
        assert_eq!(parsed.as_object().unwrap().get("key").unwrap().as_str().unwrap(), value);
    }
}
