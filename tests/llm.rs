use newscope::llm::extract_json_from_text;

#[test]
fn json_fenced_with_tag() {
    let t = "Here you go:\n```json\n{\"score\": 0.8}\n```\nThanks";
    assert_eq!(extract_json_from_text(t).as_deref(), Some("{\"score\": 0.8}"));
}

#[test]
fn json_fenced_without_tag() {
    let t = "```\n  {\"a\": 1}  \n```";
    assert_eq!(extract_json_from_text(t).as_deref(), Some("{\"a\": 1}"));
}

#[test]
fn json_between_outer_braces() {
    let t = "Sure! {\"a\": {\"b\": 2}} hope it helps";
    assert_eq!(extract_json_from_text(t).as_deref(), Some("{\"a\": {\"b\": 2}}"));
}

#[test]
fn json_absent() {
    assert_eq!(extract_json_from_text("no json here"), None);
    assert_eq!(extract_json_from_text("} backwards {"), None);
    assert_eq!(extract_json_from_text(""), None);
}

#[test]
fn json_unclosed_fence_falls_back_to_braces() {
    let t = "```json {\"x\": true}";
    assert_eq!(extract_json_from_text(t).as_deref(), Some("{\"x\": true}"));
}
