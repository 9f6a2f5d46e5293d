use patentmate::ai_payload::{
    attempt_json_repair, extract_balanced_json, json_value_to_text, strip_markdown_code_block,
    AiDisclosureSections, JsonValue,
};

fn s(x: &str) -> JsonValue {
    JsonValue::String(x.to_string())
}

#[test]
fn fences_are_removed() {
    assert_eq!(strip_markdown_code_block("```json\n{\"a\":1}\n```"), "{\"a\":1}");
    assert_eq!(strip_markdown_code_block("  ```JSON\r\n{}\n```  \n"), "{}");
    assert_eq!(strip_markdown_code_block("```\n\n x \n```"), "x");
    assert_eq!(strip_markdown_code_block("```json {\"a\":1}"), "{\"a\":1}");
    assert_eq!(strip_markdown_code_block("  plain {} "), "plain {}");
    assert_eq!(strip_markdown_code_block("```"), "");
}

#[test]
fn balanced_object_is_cut_out() {
    assert_eq!(
        extract_balanced_json("前言 {\"a\": {\"b\": \"}\"}} 后记 }").as_deref(),
        Some("{\"a\": {\"b\": \"}\"}}")
    );
    assert_eq!(
        extract_balanced_json("{\"a\": \"x\\\"}\"}tail").as_deref(),
        Some("{\"a\": \"x\\\"}\"}")
    );
    assert_eq!(extract_balanced_json("x {\"a\": [1, {").as_deref(), Some("{\"a\": [1, {"));
    assert_eq!(extract_balanced_json("没有对象"), None);
    assert_eq!(extract_balanced_json("中文{\"键\":\"值\"}").as_deref(), Some("{\"键\":\"值\"}"));
}

#[test]
fn truncated_json_is_closed() {
    assert_eq!(attempt_json_repair("{\"a\": \"b\", "), "{\"a\": \"b\"}");
    assert_eq!(attempt_json_repair("{\"a\": {\"b\":"), "{\"a\": {\"b\":\"\"}}");
    assert_eq!(attempt_json_repair("{\"a\": \"unfinished"), "{\"a\": \"unfinished\"}");
    assert_eq!(attempt_json_repair("{\"a\": 1}"), "{\"a\": 1}");
    assert_eq!(attempt_json_repair("{\"q\": \"x\\\"y\""), "{\"q\": \"x\\\"y\"}");
    assert_eq!(attempt_json_repair("}}"), "}}");
    assert_eq!(attempt_json_repair("  "), "");
}

#[test]
fn json_values_become_text() {
    assert_eq!(json_value_to_text(&JsonValue::Null), "");
    assert_eq!(json_value_to_text(&JsonValue::Bool(true)), "true");
    assert_eq!(json_value_to_text(&JsonValue::Bool(false)), "false");
    assert_eq!(json_value_to_text(&JsonValue::Number("2.5".to_string())), "2.5");
    assert_eq!(
        json_value_to_text(&JsonValue::Array(vec![s("a"), JsonValue::Null, s(""), s("b")])),
        "a\nb"
    );
    assert_eq!(
        json_value_to_text(&JsonValue::Object(vec![s("图1"), s("流程示意"), JsonValue::Null])),
        "图1；流程示意"
    );
    assert_eq!(
        json_value_to_text(&JsonValue::Array(vec![
            JsonValue::Object(vec![s("x"), s("y")]),
            JsonValue::Array(vec![]),
            JsonValue::Number("3".to_string()),
        ])),
        "x；y\n3"
    );
}

#[test]
fn sections_come_in_chapter_order() {
    let secs = AiDisclosureSections {
        title: s("T"),
        field: s("F"),
        background: JsonValue::Null,
        purpose: s("P"),
        technical_solution: s("TS"),
        benefits: s("B"),
        figures: JsonValue::Array(vec![s("图1"), s("图2")]),
        implementation: s("I"),
        layout: s("L"),
        questions: s("Q1"),
    };
    let v = secs.as_map();
    assert_eq!(v, vec!["T", "F", "", "P", "TS", "B", "图1\n图2", "I", "L", "Q1"]);
}
