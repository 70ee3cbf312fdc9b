//! Tests of the whole size computation over the structured value model.

use json_encoded_size::value::{size_of, JsonEncodedSizeOf, JsonEncodedValue, JsonValue};
use json_encoded_size::serializer::Serializer;

fn float_value(v: f64) -> JsonValue {
    let mut buffer = ryu::Buffer::new();
    JsonValue::Float(buffer.format_finite(v).len())
}

#[test]
fn scalars_size() {
    assert_eq!(size_of(&JsonValue::Null).unwrap(), "null".len());
    assert_eq!(size_of(&JsonValue::Boolean(true)).unwrap(), "true".len());
    assert_eq!(size_of(&JsonValue::Boolean(false)).unwrap(), "false".len());
    assert_eq!(size_of(&JsonValue::Integer(0)).unwrap(), "0".len());
    assert_eq!(size_of(&JsonValue::Integer(-42)).unwrap(), "-42".len());
    assert_eq!(
        size_of(&JsonValue::Integer(i64::MIN)).unwrap(),
        "-9223372036854775808".len()
    );
    assert_eq!(
        size_of(&JsonValue::Integer(i64::MAX)).unwrap(),
        "9223372036854775807".len()
    );
    assert_eq!(size_of(&JsonValue::Str("hello".to_string())).unwrap(), r#""hello""#.len());
    assert_eq!(size_of(&JsonValue::Bytes(b"abc".to_vec())).unwrap(), r#""abc""#.len());
}

#[test]
fn timestamp_size() {
    assert_eq!(
        size_of(&JsonValue::Timestamp).unwrap(),
        r#""1970-01-01T00:00:00.000Z""#.len()
    );
}

#[test]
fn float_size() {
    assert_eq!(size_of(&float_value(1.5)).unwrap(), "1.5".len());
    assert_eq!(size_of(&float_value(0.0)).unwrap(), "0.0".len());
    assert_eq!(size_of(&float_value(-2.25)).unwrap(), "-2.25".len());
}

#[test]
fn collection_framing() {
    // An empty sequence is `[]`, an empty map is `{}`.
    assert_eq!(size_of(&JsonValue::Array(vec![])).unwrap(), 2);
    assert_eq!(size_of(&JsonValue::Object(vec![])).unwrap(), 2);
    // `[1]`: no comma before the first element.
    assert_eq!(
        size_of(&JsonValue::Array(vec![JsonValue::Integer(1)])).unwrap(),
        3
    );
    // `[1,2]`: exactly one comma between two elements.
    assert_eq!(
        size_of(&JsonValue::Array(vec![JsonValue::Integer(1), JsonValue::Integer(2)])).unwrap(),
        5
    );
}

#[test]
fn object_size() {
    let v = JsonValue::Object(vec![
        ("int".to_string(), JsonValue::Integer(1)),
        (
            "seq".to_string(),
            JsonValue::Array(vec![
                JsonValue::Str("a".to_string()),
                JsonValue::Str("b".to_string()),
            ]),
        ),
    ]);
    let expected = r#"{"int":1,"seq":["a","b"]}"#;
    assert_eq!(size_of(&v).unwrap(), expected.len());
}

#[test]
fn nested_size() {
    let v = JsonValue::Object(vec![
        ("a".to_string(), JsonValue::Null),
        ("b".to_string(), JsonValue::Boolean(false)),
        (
            "c".to_string(),
            JsonValue::Array(vec![
                JsonValue::Integer(-10),
                JsonValue::Object(vec![("k".to_string(), JsonValue::Bytes(b"xy".to_vec()))]),
                JsonValue::Timestamp,
            ]),
        ),
    ]);
    let expected = r#"{"a":null,"b":false,"c":[-10,{"k":"xy"},"1970-01-01T00:00:00.000Z"]}"#;
    assert_eq!(size_of(&v).unwrap(), expected.len());
}

#[test]
fn deterministic_size() {
    let v = JsonValue::Array(vec![
        JsonValue::Integer(7),
        JsonValue::Str("x".to_string()),
        float_value(3.25),
    ]);
    let first = size_of(&v).unwrap();
    let second = size_of(&v).unwrap();
    assert_eq!(first, second);
}

fn int_array(n: i64) -> JsonValue {
    let mut items = Vec::new();
    for i in 0..n {
        items.push(JsonValue::Integer(i - 5));
    }
    JsonValue::Array(items)
}

fn int_object(n: i64) -> JsonValue {
    let mut entries = Vec::new();
    for i in 0..n {
        entries.push((format!("key{}", i), JsonValue::Integer(i)));
    }
    JsonValue::Object(entries)
}

#[test]
fn appending_never_shrinks() {
    let mut previous = size_of(&int_array(0)).unwrap();
    for n in 1..=10i64 {
        let next = size_of(&int_array(n)).unwrap();
        assert!(next >= previous);
        previous = next;
    }

    let mut previous = size_of(&int_object(0)).unwrap();
    for n in 1..=10i64 {
        let next = size_of(&int_object(n)).unwrap();
        assert!(next >= previous);
        previous = next;
    }
}

#[test]
fn trait_size() {
    assert_eq!(JsonValue::Null.json_encoded_size_of(), 4);
    let v = JsonValue::Array(vec![JsonValue::Boolean(true), JsonValue::Null]);
    assert_eq!(v.json_encoded_size_of(), "[true,null]".len());
}

#[test]
fn adapter_accumulates() {
    // The adapter adds to whatever was already counted.
    let mut serializer = Serializer::new();
    let v = JsonValue::Integer(100);
    JsonEncodedValue(&v).serialize(&mut serializer).unwrap();
    let w = JsonValue::Str("ab".to_string());
    JsonEncodedValue(&w).serialize(&mut serializer).unwrap();
    assert_eq!(serializer.bytes, "100".len() + r#""ab""#.len());
}

#[test]
fn unicode_string_size() {
    // Content is counted in UTF-8 bytes, not characters.
    let s = "caf\u{e9} \u{20ac}".to_string();
    let byte_len = s.len();
    assert_eq!(size_of(&JsonValue::Str(s)).unwrap(), 2 + byte_len);
}
