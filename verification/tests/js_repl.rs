use codex_core::document::json_string_literal_of;
use codex_core::js_repl::JsEvalOutcome;
use codex_core::js_repl::JsReplToolOutput;
use serde_json::Value as JsonValue;

fn make_outcome(success: bool, value: &str) -> JsReplToolOutput {
    JsReplToolOutput::new(JsEvalOutcome {
        value: value.to_string(),
        success,
        elapsed_ms: 7,
    })
}

#[test]
fn log_preview_summarizes_success() {
    let preview = make_outcome(true, "42").log_preview();
    assert_eq!(preview, "js_repl ok: 42");
}

#[test]
fn log_preview_summarizes_failure() {
    let preview = make_outcome(false, "compile error").log_preview();
    assert_eq!(preview, "js_repl failed: compile error");
}

#[test]
fn log_preview_collapses_multiline_value() {
    let preview = make_outcome(true, "line1\nline2\nline3").log_preview();
    assert_eq!(preview, "js_repl ok: line1");
}

#[test]
fn code_mode_result_includes_value_success_and_elapsed() {
    let text = make_outcome(true, "ok").code_mode_result();
    let value: JsonValue = serde_json::from_str(&text).expect("valid json");
    let JsonValue::Object(map) = value else {
        panic!("expected object");
    };
    assert_eq!(map.get("value"), Some(&JsonValue::String("ok".to_string())));
    assert_eq!(map.get("success"), Some(&JsonValue::Bool(true)));
    assert!(matches!(map.get("elapsed_ms"), Some(JsonValue::Number(_))));
}

#[test]
fn code_mode_result_escapes_the_value() {
    let text = make_outcome(false, "say \"hi\"\n").code_mode_result();
    assert_eq!(
        text,
        "{\"elapsed_ms\":7,\"success\":false,\"value\":\"say \\\"hi\\\"\\n\"}"
    );
    assert!(!make_outcome(false, "x").success_for_logging());
}

#[test]
fn log_preview_of_empty_first_line() {
    assert_eq!(make_outcome(true, "\nrest").log_preview(), "js_repl ok: ");
    assert_eq!(make_outcome(false, "").log_preview(), "js_repl failed: ");
}

#[test]
fn json_string_literals_match_serde_json() {
    for s in ["plain", "q\"uote", "back\\slash", "\u{8}\t\n\u{c}\r", "\u{1}\u{1f}\u{7f}", "é😀", ""] {
        assert_eq!(json_string_literal_of(s), serde_json::to_string(s).unwrap());
    }
    assert_eq!(json_string_literal_of("\u{1}"), "\"\\u0001\"");
}
