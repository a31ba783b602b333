use model_bridge::client::Failure;
use model_bridge::reply::{content_of, read_reply};
use serde_json::Value;

fn object(members: Vec<(&str, Value)>) -> Value {
    let mut m = serde_json::Map::new();
    for (k, v) in members {
        m.insert(k.to_string(), v);
    }
    Value::Object(m)
}

#[test]
fn reply_text_is_read() {
    let body = br#"{"model":"m","message":{"role":"assistant","content":"1. Add a cube"},"done":true}"#;
    assert_eq!(read_reply(body), Ok("1. Add a cube".to_string()));
}

#[test]
fn reply_text_is_unescaped() {
    let body = br#"{"message":{"content":"import bpy\nprint(\"hi\")"}}"#;
    assert_eq!(read_reply(body), Ok("import bpy\nprint(\"hi\")".to_string()));
}

#[test]
fn missing_content_is_empty_text() {
    assert_eq!(read_reply(br#"{"message":{"role":"assistant"}}"#), Ok(String::new()));
    assert_eq!(read_reply(br#"{"done":true}"#), Ok(String::new()));
    assert_eq!(read_reply(br#"{}"#), Ok(String::new()));
    assert_eq!(read_reply(br#"[1,2]"#), Ok(String::new()));
    assert_eq!(read_reply(br#""message""#), Ok(String::new()));
    assert_eq!(read_reply(br#"null"#), Ok(String::new()));
}

#[test]
fn content_that_is_no_string_is_empty_text() {
    assert_eq!(read_reply(br#"{"message":{"content":12}}"#), Ok(String::new()));
    assert_eq!(read_reply(br#"{"message":{"content":null}}"#), Ok(String::new()));
    assert_eq!(read_reply(br#"{"message":{"content":{"content":"x"}}}"#), Ok(String::new()));
    assert_eq!(read_reply(br#"{"message":"content"}"#), Ok(String::new()));
    assert_eq!(read_reply(br#"{"content":"top"}"#), Ok(String::new()));
}

#[test]
fn empty_content_is_reported_as_it_is() {
    assert_eq!(read_reply(br#"{"message":{"content":""}}"#), Ok(String::new()));
    assert_eq!(read_reply(br#"{"message":{"content":"  "}}"#), Ok("  ".to_string()));
}

#[test]
fn body_that_is_no_document_is_undecodable() {
    assert_eq!(read_reply(b""), Err(Failure::Undecodable));
    assert_eq!(read_reply(b"not json"), Err(Failure::Undecodable));
    assert_eq!(read_reply(br#"{"message":{"content":"x"}"#), Err(Failure::Undecodable));
    assert_eq!(read_reply(br#"{"message":{"content":"x"}} trailing"#), Err(Failure::Undecodable));
    assert_eq!(read_reply(&[0xff, 0xfe]), Err(Failure::Undecodable));
}

#[test]
fn content_of_a_built_document() {
    let doc = object(vec![
        ("model", Value::String("m".to_string())),
        (
            "message",
            object(vec![
                ("role", Value::String("assistant".to_string())),
                ("content", Value::String("answer".to_string())),
            ]),
        ),
    ]);
    assert_eq!(content_of(&doc), "answer");
    let other = object(vec![("message", object(vec![("content", Value::Bool(true))]))]);
    assert_eq!(content_of(&other), "");
    assert_eq!(content_of(&Value::Null), "");
    assert_eq!(content_of(&Value::String("message".to_string())), "");
}
