use serde_json::Value;
use ssr::json::{highlight_json, JsonCommand, JsonError};

const DOC: &str = r#"{"a":1,"b":[2,3]}"#;

#[test]
fn compress_prints_one_line() {
    let c = JsonCommand::new(DOC, None, true).unwrap();
    assert_eq!(c.render(), DOC);
}

#[test]
fn pretty_prints_indented() {
    let c = JsonCommand::new(DOC, None, false).unwrap();
    let text = c.render();
    assert_eq!(text, "{\n  \"a\": 1,\n  \"b\": [\n    2,\n    3\n  ]\n}");
}

#[test]
fn round_trip() {
    let original: Value = serde_json::from_str(r#"{"x":[1,2.5,"s",null,true,{"y":{}}]}"#).unwrap();
    let doc = original.to_string();
    for compress in [true, false] {
        let text = JsonCommand::new(&doc, None, compress).unwrap().render();
        let back: Value = serde_json::from_str(&text).unwrap();
        assert_eq!(back, original);
    }
}

#[test]
fn path_query() {
    let c = JsonCommand::new(DOC, Some("$.b[*]"), true).unwrap();
    assert_eq!(c.render(), "[2,3]");
    let none = JsonCommand::new(DOC, Some("$.zzz"), true).unwrap();
    assert_eq!(none.render(), "[]");
}

#[test]
fn malformed_json_fails() {
    assert!(matches!(JsonCommand::new("{\"a\":", None, false), Err(JsonError::Parse(_))));
}

#[test]
fn malformed_path_fails() {
    assert!(matches!(JsonCommand::new(DOC, Some("$["), false), Err(JsonError::Path(_))));
}

#[test]
fn output_is_coloured() {
    let c = JsonCommand::new(DOC, None, true).unwrap();
    let out = c.output().unwrap();
    assert!(out.contains("\x1b["));
    assert_ne!(out, DOC);
    assert_eq!(highlight_json(DOC).unwrap(), out);
}
