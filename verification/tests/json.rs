use alfred_gitlab::json::{
    list_of, lookup_each, lookup_list, lookup_text, lookup_texts, text_in, LookupError,
};
use serde_json::Value;

fn json(text: &str) -> Value {
    serde_json::from_str(text).unwrap()
}

fn doc() -> Value {
    json(
        r#"{
            "title": "Fix",
            "count": 3,
            "labels": {"nodes": [{"title": "bug"}, {"title": "ci"}]},
            "mixed": [{"title": "a"}, {"name": "b"}, {"title": 1}],
            "texts": ["x", "y"],
            "a/b": {"~": "tilde"},
            "nothing": null
        }"#,
    )
}

#[test]
fn lookup_text_finds_texts_only() {
    assert_eq!(lookup_text(&doc(), "/title"), Ok("Fix".to_string()));
    assert_eq!(lookup_text(&doc(), "/labels/nodes/1/title"), Ok("ci".to_string()));
    assert_eq!(lookup_text(&doc(), "/texts/0"), Ok("x".to_string()));
    assert_eq!(lookup_text(&doc(), "/a~1b/~0"), Ok("tilde".to_string()));
    assert_eq!(lookup_text(&Value::from("whole"), ""), Ok("whole".to_string()));
    assert_eq!(lookup_text(&doc(), "/count"), Err(LookupError::Mismatch));
    assert_eq!(lookup_text(&doc(), "/nothing"), Err(LookupError::Mismatch));
    assert_eq!(lookup_text(&doc(), "/labels"), Err(LookupError::Mismatch));
    assert_eq!(lookup_text(&doc(), ""), Err(LookupError::Mismatch));
    assert_eq!(lookup_text(&doc(), "/missing"), Err(LookupError::Missing));
    assert_eq!(lookup_text(&doc(), "title"), Err(LookupError::Missing));
    assert_eq!(lookup_text(&doc(), "/texts/2"), Err(LookupError::Missing));
    assert_eq!(lookup_text(&doc(), "/texts/01"), Err(LookupError::Missing));
    assert_eq!(lookup_text(&doc(), "/title/x"), Err(LookupError::Missing));
}

#[test]
fn lookup_list_finds_arrays_only() {
    assert_eq!(lookup_list(&doc(), "/texts"), Ok(vec![Value::from("x"), Value::from("y")]));
    assert_eq!(lookup_list(&json("[1, [2]]"), ""), Ok(vec![Value::from(1), json("[2]")]));
    assert_eq!(lookup_list(&doc(), "/labels/nodes").map(|l| l.len()), Ok(2));
    assert_eq!(lookup_list(&doc(), "/labels"), Err(LookupError::Mismatch));
    assert_eq!(lookup_list(&doc(), "/title"), Err(LookupError::Mismatch));
    assert_eq!(lookup_list(&doc(), "/nowhere"), Err(LookupError::Missing));
}

#[test]
fn lookup_texts_reads_one_text_of_each_element() {
    assert_eq!(
        lookup_texts(&doc(), "/labels/nodes", "/title"),
        Ok(vec!["bug".to_string(), "ci".to_string()])
    );
    assert_eq!(lookup_texts(&doc(), "/texts", ""), Ok(vec!["x".to_string(), "y".to_string()]));
    assert_eq!(lookup_texts(&json(r#"{"l": []}"#), "/l", "/title"), Ok(vec![]));
    // The first element that fails decides.
    assert_eq!(lookup_texts(&doc(), "/mixed", "/title"), Err(LookupError::Missing));
    assert_eq!(lookup_texts(&doc(), "/mixed", "/name"), Err(LookupError::Missing));
    assert_eq!(lookup_texts(&json(r#"[{"t": 1}, {}]"#), "", "/t"), Err(LookupError::Mismatch));
    assert_eq!(lookup_texts(&doc(), "/title", "/title"), Err(LookupError::Mismatch));
    assert_eq!(lookup_texts(&doc(), "/nowhere", "/title"), Err(LookupError::Missing));
}

#[test]
fn lookup_each_takes_the_list_as_it_is() {
    let list = vec![json(r#"{"t": "a"}"#), json(r#"{"t": "b"}"#)];
    assert_eq!(lookup_each(&list, "/t"), Ok(vec!["a".to_string(), "b".to_string()]));
    assert_eq!(lookup_each(&list, "/u"), Err(LookupError::Missing));
    assert_eq!(lookup_each(&vec![], "/t"), Ok(vec![]));
    let list = vec![json(r#"{"t": "a"}"#), json(r#"{"t": []}"#), json("{}")];
    assert_eq!(lookup_each(&list, "/t"), Err(LookupError::Mismatch));
}

#[test]
fn text_in_and_list_of_take_what_was_found() {
    assert_eq!(text_in(Some(Value::from("t"))), Ok("t".to_string()));
    assert_eq!(text_in(Some(Value::from(1))), Err(LookupError::Mismatch));
    assert_eq!(text_in(Some(Value::Null)), Err(LookupError::Mismatch));
    assert_eq!(text_in(None), Err(LookupError::Missing));
    assert_eq!(list_of(Some(json("[1]"))), Ok(vec![Value::from(1)]));
    assert_eq!(list_of(Some(json("{}"))), Err(LookupError::Mismatch));
    assert_eq!(list_of(None), Err(LookupError::Missing));
}
