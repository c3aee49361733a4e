use litertlm_rs::{extract_text, text_of_message, JsonValue};

#[test]
fn extract_text_single_block() {
    let msg = r#"{"role":"model","content":[{"type":"text","text":"Hello!"}]}"#;
    assert_eq!(extract_text(msg), "Hello!");
}

#[test]
fn extract_text_concatenates_text_blocks_in_order() {
    let msg = r#"{"role":"model","content":[{"type":"text","text":"Hel"},{"type":"text","text":"lo"}]}"#;
    assert_eq!(extract_text(msg), "Hello");
}

#[test]
fn extract_text_skips_non_text_blocks() {
    let msg = r#"{"content":[{"type":"image","path":"/a.jpg"},{"type":"text","text":"x"},{"type":"audio","text":"ignored"}]}"#;
    assert_eq!(extract_text(msg), "x");
}

#[test]
fn extract_text_invalid_json_is_empty() {
    assert_eq!(extract_text("not json"), "");
    assert_eq!(extract_text(""), "");
    assert_eq!(extract_text(r#"{"content":[{"type":"text","text":"x"}]"#), "");
}

#[test]
fn extract_text_unexpected_shape_is_empty() {
    assert_eq!(extract_text(r#"{"role":"user","content":"hello"}"#), "");
    assert_eq!(extract_text(r#"{"role":"user"}"#), "");
    assert_eq!(extract_text(r#"[1,2,3]"#), "");
    assert_eq!(extract_text(r#""text""#), "");
}

#[test]
fn extract_text_block_without_text_member() {
    let msg = r#"{"content":[{"type":"text"},{"type":"text","text":7},{"type":"text","text":"ok"}]}"#;
    assert_eq!(extract_text(msg), "ok");
}

#[test]
fn extract_text_unicode_and_escapes() {
    let msg = r#"{"content":[{"type":"text","text":"caf\u00e9 \"q\"\n"}]}"#;
    assert_eq!(extract_text(msg), "café \"q\"\n");
}

#[test]
fn extract_text_other_members_do_not_matter() {
    let msg = r#"{"content":[{"text":"a","type":"text","extra":[1,{"b":null}]}],"n":1.5,"t":true}"#;
    assert_eq!(extract_text(msg), "a");
}

fn block(kind: &str, text: &str) -> JsonValue {
    JsonValue::Object(vec![
        ("type".to_string(), JsonValue::String(kind.to_string())),
        ("text".to_string(), JsonValue::String(text.to_string())),
    ])
}

#[test]
fn text_of_parsed_message() {
    let msg = JsonValue::Object(vec![
        ("role".to_string(), JsonValue::String("model".to_string())),
        (
            "content".to_string(),
            JsonValue::Array(vec![block("text", "a"), block("image", "b"), block("text", "c")]),
        ),
    ]);
    assert_eq!(text_of_message(&msg), "ac");
}

#[test]
fn text_of_message_first_member_wins() {
    let msg = JsonValue::Object(vec![
        ("content".to_string(), JsonValue::Array(vec![block("text", "first")])),
        ("content".to_string(), JsonValue::Array(vec![block("text", "second")])),
    ]);
    assert_eq!(text_of_message(&msg), "first");
}

#[test]
fn text_of_non_object_is_empty() {
    assert_eq!(text_of_message(&JsonValue::Null), "");
    assert_eq!(text_of_message(&JsonValue::Array(vec![block("text", "a")])), "");
    assert_eq!(text_of_message(&JsonValue::Number), "");
}
