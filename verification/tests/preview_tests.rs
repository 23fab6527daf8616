use mailflow_api::constants::{MAX_PREVIEW_LENGTH, MAX_SUBJECT_PREVIEW_LENGTH};
use mailflow_api::json::JsonValue;
use mailflow_api::preview::{create_message_preview, preview_of_parsed};

#[test]
fn test_message_preview_with_email() {
    let json_body = r#"{"email":{"from":{"address":"test@example.com"},"subject":"Test Subject"}}"#;
    let preview = create_message_preview(json_body);
    assert_eq!(preview, "Email from: test@example.com, Subject: Test Subject");
}

#[test]
fn test_message_preview_with_message_type() {
    let json_body = r#"{"messageType":"ORDER_CREATED","id":"order-123"}"#;
    let preview = create_message_preview(json_body);
    assert_eq!(preview, "Message type: ORDER_CREATED, ID: order-123");
}

#[test]
fn test_message_preview_with_type_only() {
    let json_body = r#"{"type":"NOTIFICATION"}"#;
    let preview = create_message_preview(json_body);
    assert_eq!(preview, "Message type: NOTIFICATION");
}

#[test]
fn test_message_preview_with_subject() {
    let json_body = r#"{"subject":"This is a test subject"}"#;
    let preview = create_message_preview(json_body);
    assert_eq!(preview, "Subject: This is a test subject");
}

#[test]
fn test_message_preview_with_long_subject() {
    let long_subject = "a".repeat(150);
    let json_body = format!(r#"{{"subject":"{}"}}"#, long_subject);
    let preview = create_message_preview(&json_body);
    assert!(preview.starts_with("Subject: "));
    assert!(preview.ends_with("..."));
    assert!(preview.len() <= MAX_SUBJECT_PREVIEW_LENGTH + 20);
}

#[test]
fn test_message_preview_with_json_keys() {
    let json_body = r#"{"key1":"value1","key2":"value2","key3":"value3"}"#;
    let preview = create_message_preview(json_body);
    assert!(preview.starts_with("JSON with keys:"));
    assert!(preview.contains("key1"));
    assert!(preview.contains("key2"));
    assert!(preview.contains("key3"));
}

#[test]
fn test_message_preview_truncation() {
    let long_text = "a".repeat(300);
    let preview = create_message_preview(&long_text);
    assert_eq!(preview.len(), MAX_PREVIEW_LENGTH + 3);
    assert!(preview.ends_with("..."));
}

#[test]
fn test_message_preview_short_text() {
    let short_text = "Short message";
    let preview = create_message_preview(short_text);
    assert_eq!(preview, short_text);
}

#[test]
fn test_message_preview_exact_keys_order_and_cap() {
    // Field order of the body is kept, and only the first five keys appear.
    let json_body = r#"{"b":1,"a":2,"c":3,"d":4,"e":5,"f":6}"#;
    let preview = create_message_preview(json_body);
    assert_eq!(preview, "JSON with keys: b, a, c, d, e");
}

#[test]
fn test_message_preview_boundary_unchanged() {
    let body = "x".repeat(MAX_PREVIEW_LENGTH);
    assert_eq!(create_message_preview(&body), body);
}

#[test]
fn test_message_preview_boundary_one_over() {
    let body = "x".repeat(MAX_PREVIEW_LENGTH + 1);
    let preview = create_message_preview(&body);
    assert_eq!(preview.len(), MAX_PREVIEW_LENGTH + 3);
    let expected = format!("{}...", &body[..MAX_PREVIEW_LENGTH]);
    assert_eq!(preview, expected);
}

#[test]
fn test_message_preview_subject_scenario() {
    // A subject of exactly one character over the subject cut is truncated
    // to the cut plus a three-character ellipsis.
    let subject = "s".repeat(MAX_SUBJECT_PREVIEW_LENGTH + 1);
    let json_body = format!(r#"{{"subject":"{}"}}"#, subject);
    let preview = create_message_preview(&json_body);
    let expected = format!("Subject: {}...", "s".repeat(MAX_SUBJECT_PREVIEW_LENGTH));
    assert_eq!(preview, expected);
}

#[test]
fn test_message_preview_hello_unchanged() {
    assert_eq!(create_message_preview("hello"), "hello");
}

#[test]
fn test_message_preview_deterministic() {
    let body = r#"{"messageType":"X","id":""}"#;
    assert_eq!(create_message_preview(body), create_message_preview(body));
    assert_eq!(create_message_preview(body), "Message type: X");
}

#[test]
fn test_message_preview_invalid_json_falls_back() {
    let body = "{not json at all";
    assert_eq!(create_message_preview(body), body);
}

#[test]
fn test_message_preview_non_object_falls_back() {
    assert_eq!(create_message_preview("[1,2,3]"), "[1,2,3]");
    assert_eq!(create_message_preview("42"), "42");
}

#[test]
fn test_preview_of_parsed_reaches_logic() {
    // The same heuristics run on a tree built by hand: the parse step
    // contributes nothing but the tree.
    let tree = JsonValue::Object(vec![(
        "subject".to_string(),
        JsonValue::Text("built by hand".to_string()),
    )]);
    let preview = preview_of_parsed(&Some(tree), "ignored body");
    assert_eq!(preview, "Subject: built by hand");
}

#[test]
fn test_preview_parse_is_really_parsing() {
    // Would fail if the parse boundary handed the body text back unchanged.
    let body = r#"{"email":{"from":{"address":"a@b.c"},"subject":"s"}}"#;
    assert_eq!(
        create_message_preview(body),
        "Email from: a@b.c, Subject: s"
    );
    assert_ne!(create_message_preview(body), body);
}
