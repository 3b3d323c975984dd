use session_engine::wire::{three_member_object, two_member_object, two_text_object};

#[test]
fn two_member_object_frames_values_as_given() {
    assert_eq!(two_member_object("a", "1", "b", "\"x\""), "{\"a\":1,\"b\":\"x\"}");
}

#[test]
fn three_member_object_frames_values_as_given() {
    assert_eq!(
        three_member_object("a", "1", "b", "2.5", "c", "{\"d\":null}"),
        "{\"a\":1,\"b\":2.5,\"c\":{\"d\":null}}"
    );
}

#[test]
fn two_text_object_quotes_and_escapes_its_texts() {
    let object = two_text_object("msg", "say \"hi\"\n", "msg_type", "a\\b");
    assert_eq!(object, "{\"msg\":\"say \\\"hi\\\"\\n\",\"msg_type\":\"a\\\\b\"}");
    let parsed: serde_json::Value = serde_json::from_str(&object).unwrap();
    assert_eq!(parsed.get("msg").and_then(|v| v.as_str()), Some("say \"hi\"\n"));
    assert_eq!(parsed.get("msg_type").and_then(|v| v.as_str()), Some("a\\b"));
}

#[test]
fn two_text_object_keeps_text_beyond_ascii() {
    let object = two_text_object("msg", "żółw €", "variant", "x");
    let parsed: serde_json::Value = serde_json::from_str(&object).unwrap();
    assert_eq!(parsed.get("msg").and_then(|v| v.as_str()), Some("żółw €"));
}

#[test]
fn two_text_object_quotes_control_characters_and_the_empty_text() {
    assert_eq!(two_text_object("a", "", "b", "\t\u{1}"), "{\"a\":\"\",\"b\":\"\\t\\u0001\"}");
}
