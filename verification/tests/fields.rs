use mould::session::{ExtractError, Request};
use mould_file::file::FileAccess;
use mould_file::outcome::Item;
use mould_file::phase::Phase;
use mould_file::rejection::{Rejection, RejectionKind};
use mould_file::request::{extract_object_field, extract_text_field, required};
use mould_file::writer::extract_content;
use mould_file::FileAccessPermission;
use serde_json::Value;

fn request(fields: &[(&str, Value)]) -> Request {
    let mut payload = serde_json::Map::new();
    for (name, value) in fields {
        payload.insert(name.to_string(), value.clone());
    }
    Request { action: "read-file".to_string(), payload }
}

fn malformed(message: &str) -> Rejection {
    Rejection { kind: RejectionKind::MalformedRequest, message: message.to_string() }
}

fn city() -> Value {
    let mut map = serde_json::Map::new();
    map.insert("city".to_string(), Value::String("London".to_string()));
    Value::Object(map)
}

#[test]
fn a_string_field_is_extracted_as_it_is() {
    let mut request = request(&[("path", Value::String("/tmp/a.txt".to_string()))]);
    assert_eq!(extract_text_field(&mut request, "path"), Ok("/tmp/a.txt".to_string()));
    assert_eq!(extract_text_field(&mut request, "path"), Ok("/tmp/a.txt".to_string()));
    assert_eq!(request.action, "read-file");
    assert_eq!(request.payload.len(), 1);
}

#[test]
fn a_missing_field_is_malformed_and_named() {
    let mut request = request(&[("path", Value::String("/tmp/a.txt".to_string()))]);
    assert_eq!(
        extract_text_field(&mut request, "content"),
        Err(malformed("Field content not provided or have wrong format."))
    );
    assert_eq!(
        extract_object_field(&mut request, "object"),
        Err(malformed("Field object not provided or have wrong format."))
    );
}

#[test]
fn a_field_of_the_wrong_type_is_malformed() {
    let mut request = request(&[
        ("path", Value::from(7)),
        ("flag", Value::Bool(true)),
        ("nothing", Value::Null),
        ("object", city()),
        ("text", Value::String("{}".to_string())),
        ("list", Value::Array(vec![city()])),
    ]);
    for name in ["path", "flag", "nothing", "object", "list"] {
        assert_eq!(
            extract_text_field(&mut request, name),
            Err(malformed(&format!("Field {} not provided or have wrong format.", name)))
        );
    }
    for name in ["path", "flag", "nothing", "text", "list"] {
        assert_eq!(
            extract_object_field(&mut request, name),
            Err(malformed(&format!("Field {} not provided or have wrong format.", name)))
        );
    }
}

#[test]
fn an_object_field_is_extracted_as_a_value() {
    let mut request = request(&[("object", city())]);
    assert_eq!(extract_object_field(&mut request, "object"), Ok(city()));
    assert_eq!(request.payload.get("object"), Some(&city()));
}

#[test]
fn the_message_of_a_missing_field_is_the_runtime_s_own() {
    let missing: Result<String, Rejection> = required(None, "path");
    assert_eq!(missing.unwrap_err().message, ExtractError::from("path").to_string());
    let present: Result<u8, Rejection> = required(Some(3), "path");
    assert_eq!(present, Ok(3));
}

#[test]
fn items_are_reported_under_their_keys() {
    assert_eq!(Item::Content("hello".to_string()).key(), "content");
    assert_eq!(Item::Object(city()).key(), "object");
}

#[test]
fn a_plain_read_keeps_the_text() {
    assert_eq!(Item::read(false, "{ 1".to_string()), Ok(Item::Content("{ 1".to_string())));
    assert_eq!(Item::read(false, String::new()), Ok(Item::Content(String::new())));
}

#[test]
fn a_converting_read_parses_the_text() {
    assert_eq!(Item::read(true, " {\"city\": \"London\"} ".to_string()), Ok(Item::Object(city())));
    assert_eq!(Item::decode("[1, 2]"), Ok(Item::Object(Value::Array(vec![Value::from(1), Value::from(2)]))));
    assert_eq!(
        Item::decode(""),
        Err(Rejection {
            kind: RejectionKind::Io,
            message: "EOF while parsing a value at line 1 column 0".to_string(),
        })
    );
    assert_eq!(
        Item::decode("{\"city\" London}"),
        Err(Rejection {
            kind: RejectionKind::Io,
            message: "expected `:` at line 1 column 9".to_string(),
        })
    );
}

#[test]
fn a_parsed_file_becomes_an_item_or_an_io_failure() {
    assert_eq!(Item::from_parsed(Ok(city())), Ok(Item::Object(city())));
    assert_eq!(
        Item::from_parsed(Err("expected value at line 1 column 1".to_string())),
        Err(Rejection {
            kind: RejectionKind::Io,
            message: "expected value at line 1 column 1".to_string(),
        })
    );
}

#[test]
fn rejections_carry_their_fixed_messages() {
    assert_eq!(
        Rejection::forbidden(),
        Rejection { kind: RejectionKind::Forbidden, message: "You haven't permissions!".to_string() }
    );
    assert_eq!(
        Rejection::handle_expected(),
        Rejection { kind: RejectionKind::ResourceLost, message: "File handle expected".to_string() }
    );
    assert_eq!(
        Rejection::out_of_order(),
        Rejection {
            kind: RejectionKind::ResourceLost,
            message: "Worker phase out of order".to_string(),
        }
    );
    assert_eq!(
        Rejection::io("disk on fire".to_string()),
        Rejection { kind: RejectionKind::Io, message: "disk on fire".to_string() }
    );
    assert_eq!(
        Rejection::new(RejectionKind::UnknownAction, "no".to_string()),
        Rejection { kind: RejectionKind::UnknownAction, message: "no".to_string() }
    );
}

#[test]
fn the_text_to_write_is_the_content_or_the_rendered_object() {
    let mut plain = request(&[
        ("content", Value::String("{\"as\": \"is\"}".to_string())),
        ("object", city()),
    ]);
    assert_eq!(extract_content(false, &mut plain), Ok("{\"as\": \"is\"}".to_string()));
    assert_eq!(extract_content(true, &mut plain), Ok("{\"city\":\"London\"}".to_string()));

    let mut empty = request(&[]);
    assert_eq!(
        extract_content(false, &mut empty),
        Err(malformed("Field content not provided or have wrong format."))
    );
    assert_eq!(
        extract_content(true, &mut empty),
        Err(malformed("Field object not provided or have wrong format."))
    );
}

#[test]
fn a_rendered_object_keeps_nesting_and_escapes() {
    let mut inner = serde_json::Map::new();
    inner.insert("quote".to_string(), Value::String("say \"hi\"\n".to_string()));
    inner.insert("list".to_string(), Value::Array(vec![Value::Null, Value::Bool(false)]));
    let mut outer = serde_json::Map::new();
    outer.insert("inner".to_string(), Value::Object(inner));
    let mut request = request(&[("object", Value::Object(outer))]);
    assert_eq!(
        extract_content(true, &mut request),
        Ok("{\"inner\":{\"list\":[null,false],\"quote\":\"say \\\"hi\\\"\\n\"}}".to_string())
    );
}

#[test]
fn each_access_asks_for_the_permission_of_its_name() {
    assert_eq!(FileAccess::CanRead.permission(), FileAccessPermission::CanRead);
    assert_eq!(FileAccess::CanWrite.permission(), FileAccessPermission::CanWrite);
    assert_eq!(FileAccess::CanDelete.permission(), FileAccessPermission::CanDelete);
}

#[test]
fn only_the_two_outcomes_are_terminal() {
    for phase in [Phase::Pending, Phase::Examined, Phase::Granted, Phase::Authorized, Phase::Realizing] {
        assert!(!phase.is_terminal());
    }
    assert!(Phase::Succeeded.is_terminal());
    assert!(Phase::Failed.is_terminal());
}
