use std::collections::HashMap;

#[test]
fn malformed_entry_is_located_and_nothing_partial_returned() {
    let text = r#"[
    {"title": "a"},
    {"title": 1},
    {"title": "c"}
]"#;
    let de = &mut serde_json::Deserializer::from_str(text);
    let result: Result<Vec<HashMap<String, String>>, _> = serde_path_to_error::deserialize(de);
    let err = result.expect_err("a number where a string is expected must fail");
    assert_eq!(err.path().to_string(), "[1].title");
    assert_eq!(err.inner().line(), 3);
}
