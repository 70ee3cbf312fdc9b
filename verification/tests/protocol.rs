//! Tests that drive the serialization protocol directly, fragment by
//! fragment, and check the accumulated byte counts.

use json_encoded_size::serializer::Serializer;

fn len_i8(v: i8) -> usize {
    let mut s = Serializer::new();
    s.serialize_i8(v).unwrap();
    s.bytes
}

fn len_i16(v: i16) -> usize {
    let mut s = Serializer::new();
    s.serialize_i16(v).unwrap();
    s.bytes
}

fn len_i32(v: i32) -> usize {
    let mut s = Serializer::new();
    s.serialize_i32(v).unwrap();
    s.bytes
}

fn len_i64(v: i64) -> usize {
    let mut s = Serializer::new();
    s.serialize_i64(v).unwrap();
    s.bytes
}

fn len_u8(v: u8) -> usize {
    let mut s = Serializer::new();
    s.serialize_u8(v).unwrap();
    s.bytes
}

fn len_u16(v: u16) -> usize {
    let mut s = Serializer::new();
    s.serialize_u16(v).unwrap();
    s.bytes
}

fn len_u32(v: u32) -> usize {
    let mut s = Serializer::new();
    s.serialize_u32(v).unwrap();
    s.bytes
}

fn len_u64(v: u64) -> usize {
    let mut s = Serializer::new();
    s.serialize_u64(v).unwrap();
    s.bytes
}

#[test]
fn test_struct() {
    // A struct with fields `int: 1` and `seq: vec!["a", "b"]`, driven
    // through the protocol the way a generic encoder serializes it.
    let mut serializer = Serializer::new();
    serializer.serialize_struct("Test", 2).unwrap();
    serializer.serialize_field("int").unwrap();
    serializer.serialize_u32(1).unwrap();
    serializer.serialize_field("seq").unwrap();
    serializer.serialize_seq(Some(2)).unwrap();
    serializer.serialize_element().unwrap();
    serializer.serialize_str("a").unwrap();
    serializer.serialize_element().unwrap();
    serializer.serialize_str("b").unwrap();
    serializer.end_seq().unwrap();
    serializer.end_map().unwrap();
    let expected = r#"{"int":1,"seq":["a","b"]}"#;
    assert_eq!(serializer.bytes, expected.len());
}

#[test]
fn test_enum() {
    // The four enum shapes: `Unit`, `Newtype(1)`, `Tuple(1, 2)`, and
    // `Struct { a: 1 }`.
    let mut serializer = Serializer::new();
    serializer.serialize_unit_variant("E", 0, "Unit").unwrap();
    let expected = r#""Unit""#;
    assert_eq!(serializer.bytes, expected.len());

    let mut serializer = Serializer::new();
    serializer.serialize_newtype_variant("E", 1, "Newtype").unwrap();
    serializer.serialize_u32(1).unwrap();
    let expected = r#"{"Newtype":1}"#;
    assert_eq!(serializer.bytes, expected.len());

    let mut serializer = Serializer::new();
    serializer.serialize_tuple_variant("E", 2, "Tuple", 2).unwrap();
    serializer.serialize_element().unwrap();
    serializer.serialize_u32(1).unwrap();
    serializer.serialize_element().unwrap();
    serializer.serialize_u32(2).unwrap();
    serializer.end_tuple_variant().unwrap();
    let expected = r#"{"Tuple":[1,2]}"#;
    assert_eq!(serializer.bytes, expected.len());

    let mut serializer = Serializer::new();
    serializer.serialize_struct_variant("E", 3, "Struct", 1).unwrap();
    serializer.serialize_field("a").unwrap();
    serializer.serialize_u32(1).unwrap();
    serializer.end_struct_variant().unwrap();
    let expected = r#"{"Struct":{"a":1}}"#;
    assert_eq!(serializer.bytes, expected.len());
}

#[test]
fn i8_boundaries() {
    assert_eq!(len_i8(0), "0".len());
    assert_eq!(len_i8(1), "1".len());
    assert_eq!(len_i8(-1), "-1".len());
    assert_eq!(len_i8(9), "9".len());
    assert_eq!(len_i8(10), "10".len());
    assert_eq!(len_i8(99), "99".len());
    assert_eq!(len_i8(100), "100".len());
    assert_eq!(len_i8(127), "127".len());
    assert_eq!(len_i8(-9), "-9".len());
    assert_eq!(len_i8(-10), "-10".len());
    assert_eq!(len_i8(-99), "-99".len());
    assert_eq!(len_i8(-100), "-100".len());
    assert_eq!(len_i8(-128), "-128".len());
}

#[test]
fn i16_boundaries() {
    assert_eq!(len_i16(0), "0".len());
    assert_eq!(len_i16(999), "999".len());
    assert_eq!(len_i16(1_000), "1000".len());
    assert_eq!(len_i16(9_999), "9999".len());
    assert_eq!(len_i16(10_000), "10000".len());
    assert_eq!(len_i16(32_767), "32767".len());
    assert_eq!(len_i16(-999), "-999".len());
    assert_eq!(len_i16(-1_000), "-1000".len());
    assert_eq!(len_i16(-9_999), "-9999".len());
    assert_eq!(len_i16(-10_000), "-10000".len());
    assert_eq!(len_i16(-32_768), "-32768".len());
}

#[test]
fn i32_boundaries() {
    assert_eq!(len_i32(0), "0".len());
    assert_eq!(len_i32(99_999), "99999".len());
    assert_eq!(len_i32(100_000), "100000".len());
    assert_eq!(len_i32(999_999_999), "999999999".len());
    assert_eq!(len_i32(1_000_000_000), "1000000000".len());
    assert_eq!(len_i32(2_147_483_647), "2147483647".len());
    assert_eq!(len_i32(-99_999), "-99999".len());
    assert_eq!(len_i32(-100_000), "-100000".len());
    assert_eq!(len_i32(-999_999_999), "-999999999".len());
    assert_eq!(len_i32(-1_000_000_000), "-1000000000".len());
    assert_eq!(len_i32(-2_147_483_648), "-2147483648".len());
}

#[test]
fn i64_boundaries() {
    assert_eq!(len_i64(0), "0".len());
    assert_eq!(len_i64(999_999_999_999_999_999), "999999999999999999".len());
    assert_eq!(len_i64(1_000_000_000_000_000_000), "1000000000000000000".len());
    assert_eq!(len_i64(9_223_372_036_854_775_807), "9223372036854775807".len());
    assert_eq!(len_i64(-999_999_999_999_999_999), "-999999999999999999".len());
    assert_eq!(len_i64(-1_000_000_000_000_000_000), "-1000000000000000000".len());
    assert_eq!(len_i64(-9_223_372_036_854_775_808), "-9223372036854775808".len());
}

#[test]
fn i64_every_power_of_ten() {
    let mut p: i64 = 1;
    let mut digits: usize = 1;
    loop {
        assert_eq!(len_i64(p), digits);
        assert_eq!(len_i64(p - 1), if p == 1 { 1 } else { digits - 1 });
        assert_eq!(len_i64(-p), digits + 1);
        assert_eq!(len_i64(-(p - 1)), if p == 1 { 1 } else { digits });
        if p > i64::MAX / 10 {
            break;
        }
        p *= 10;
        digits += 1;
    }
}

#[test]
fn u8_boundaries() {
    assert_eq!(len_u8(0), "0".len());
    assert_eq!(len_u8(9), "9".len());
    assert_eq!(len_u8(10), "10".len());
    assert_eq!(len_u8(99), "99".len());
    assert_eq!(len_u8(100), "100".len());
    assert_eq!(len_u8(255), "255".len());
}

#[test]
fn u16_boundaries() {
    assert_eq!(len_u16(0), "0".len());
    assert_eq!(len_u16(9_999), "9999".len());
    assert_eq!(len_u16(10_000), "10000".len());
    assert_eq!(len_u16(65_535), "65535".len());
}

#[test]
fn u32_boundaries() {
    assert_eq!(len_u32(0), "0".len());
    assert_eq!(len_u32(999_999_999), "999999999".len());
    assert_eq!(len_u32(1_000_000_000), "1000000000".len());
    assert_eq!(len_u32(4_294_967_295), "4294967295".len());
}

#[test]
fn u64_boundaries() {
    assert_eq!(len_u64(0), "0".len());
    assert_eq!(len_u64(9_999_999_999_999_999_999), "9999999999999999999".len());
    assert_eq!(len_u64(10_000_000_000_000_000_000), "10000000000000000000".len());
    assert_eq!(len_u64(18_446_744_073_709_551_615), "18446744073709551615".len());
}

#[test]
fn u64_every_power_of_ten() {
    let mut p: u64 = 1;
    let mut digits: usize = 1;
    loop {
        assert_eq!(len_u64(p), digits);
        assert_eq!(len_u64(p - 1), if p == 1 { 1 } else { digits - 1 });
        if p > u64::MAX / 10 {
            break;
        }
        p *= 10;
        digits += 1;
    }
}

#[test]
fn scalar_fragments() {
    let mut s = Serializer::new();
    s.serialize_bool(true).unwrap();
    assert_eq!(s.bytes, "true".len());

    let mut s = Serializer::new();
    s.serialize_bool(false).unwrap();
    assert_eq!(s.bytes, "false".len());

    let mut s = Serializer::new();
    s.serialize_unit().unwrap();
    assert_eq!(s.bytes, "null".len());

    let mut s = Serializer::new();
    s.serialize_unit_struct("Nothing").unwrap();
    assert_eq!(s.bytes, "null".len());

    let mut s = Serializer::new();
    s.serialize_none().unwrap();
    assert_eq!(s.bytes, "null".len());

    // A present optional adds no framing: only the inner value counts.
    let mut s = Serializer::new();
    s.serialize_some().unwrap();
    s.serialize_u32(7).unwrap();
    assert_eq!(s.bytes, "7".len());

    let mut s = Serializer::new();
    s.serialize_newtype_struct("Wrapper").unwrap();
    s.serialize_u32(7).unwrap();
    assert_eq!(s.bytes, "7".len());
}

#[test]
fn string_fragments() {
    let mut s = Serializer::new();
    s.serialize_str("hello").unwrap();
    assert_eq!(s.bytes, r#""hello""#.len());

    // Byte length, not character count.
    let mut s = Serializer::new();
    s.serialize_str("h\u{e9}llo").unwrap();
    assert_eq!(s.bytes, 2 + "h\u{e9}llo".len());

    let mut s = Serializer::new();
    s.serialize_bytes(b"abc").unwrap();
    assert_eq!(s.bytes, r#""abc""#.len());

    let mut s = Serializer::new();
    s.serialize_char('a').unwrap();
    assert_eq!(s.bytes, 3);

    let mut s = Serializer::new();
    s.serialize_char('\u{e9}').unwrap();
    assert_eq!(s.bytes, 4);

    let mut s = Serializer::new();
    s.serialize_char('\u{20ac}').unwrap();
    assert_eq!(s.bytes, 5);

    let mut s = Serializer::new();
    s.serialize_char('\u{1d11e}').unwrap();
    assert_eq!(s.bytes, 6);
}

#[test]
fn tuple_fragments() {
    // (10, 20, 30) encodes as [10,20,30].
    let mut s = Serializer::new();
    s.serialize_tuple(3).unwrap();
    s.serialize_element().unwrap();
    s.serialize_u32(10).unwrap();
    s.serialize_element().unwrap();
    s.serialize_u32(20).unwrap();
    s.serialize_element().unwrap();
    s.serialize_u32(30).unwrap();
    s.end_seq().unwrap();
    assert_eq!(s.bytes, "[10,20,30]".len());

    let mut s = Serializer::new();
    s.serialize_tuple_struct("Pair", 2).unwrap();
    s.serialize_element().unwrap();
    s.serialize_u32(1).unwrap();
    s.serialize_element().unwrap();
    s.serialize_u32(2).unwrap();
    s.end_seq().unwrap();
    assert_eq!(s.bytes, "[1,2]".len());
}

#[test]
fn map_fragments() {
    // {"a":1,"bc":null}
    let mut s = Serializer::new();
    s.serialize_map(Some(2)).unwrap();
    s.serialize_key().unwrap();
    s.serialize_str("a").unwrap();
    s.serialize_value().unwrap();
    s.serialize_u32(1).unwrap();
    s.serialize_key().unwrap();
    s.serialize_str("bc").unwrap();
    s.serialize_value().unwrap();
    s.serialize_unit().unwrap();
    s.end_map().unwrap();
    assert_eq!(s.bytes, r#"{"a":1,"bc":null}"#.len());
}
