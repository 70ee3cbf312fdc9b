//! A specification of the JSON text itself, and the proof that the size
//! computation returns exactly that text's byte length.
//!
//! The text modeled here is what the system's encoder writes: string and
//! buffer content appears unescaped between its quotes, and a timestamp
//! appears as the fixed millisecond-precision UTC stand-in. Floats carry
//! only the length of their rendering, so no text is modeled for them
//! and the exactness statement is for float-free values.

use crate::digits::{dec_len, dec_len_signed};
use crate::value::{
    comma_total, entry_size, json_size, map_entries_size, seq_items_size, JsonValue,
};
use vstd::prelude::*;
use vstd::utf8::encode_utf8;

verus! {

/// The ASCII digits of `n`, most significant first, no leading zeros
/// (`0` itself is the single digit `0`).
pub open spec fn dec_digits(n: nat) -> Seq<u8>
    decreases n,
{
    if n < 10 {
        seq![(48 + n) as u8]
    } else {
        dec_digits(n / 10).push((48 + n % 10) as u8)
    }
}

/// The bytes a JSON encoder writes for the integer `v`: its decimal
/// digits, with a leading `-` when `v` is negative.
pub open spec fn int_bytes(v: int) -> Seq<u8> {
    if v < 0 {
        seq![45u8] + dec_digits((-v) as nat)
    } else {
        dec_digits(v as nat)
    }
}

/// The 24 bytes of the fixed timestamp stand-in,
/// `1970-01-01T00:00:00.000Z`.
pub open spec fn epoch_stub_bytes() -> Seq<u8> {
    seq![
        49u8,
        57,
        55,
        48,
        45,
        48,
        49,
        45,
        48,
        49,
        84,
        48,
        48,
        58,
        48,
        48,
        58,
        48,
        48,
        46,
        48,
        48,
        48,
        90,
    ]
}

/// Whether a value holds no float at any depth. Floats are modeled by
/// the length of their rendering alone, so only float-free values have
/// their full text modeled by [`json_bytes`].
pub open spec fn float_free(v: JsonValue) -> bool
    decreases v,
{
    match v {
        JsonValue::Float(_) => false,
        JsonValue::Array(a) => seq_float_free(a@),
        JsonValue::Object(m) => map_float_free(m@),
        _ => true,
    }
}

/// Whether every value of a sequence is float-free.
pub open spec fn seq_float_free(s: Seq<JsonValue>) -> bool
    decreases s,
{
    if s.len() == 0 {
        true
    } else {
        seq_float_free(s.drop_last()) && float_free(s.last())
    }
}

/// Whether every value of an object's entries is float-free.
pub open spec fn map_float_free(s: Seq<(String, JsonValue)>) -> bool
    decreases s,
{
    if s.len() == 0 {
        true
    } else {
        map_float_free(s.drop_last()) && float_free(s.last().1)
    }
}

/// The UTF-8 JSON text of `v`, as the system's encoder writes it. For a
/// `Float` no text is modeled and the result is empty; see
/// [`float_free`].
pub open spec fn json_bytes(v: JsonValue) -> Seq<u8>
    decreases v,
{
    match v {
        JsonValue::Null => seq![110u8, 117, 108, 108],
        JsonValue::Boolean(b) => if b {
            seq![116u8, 114, 117, 101]
        } else {
            seq![102u8, 97, 108, 115, 101]
        },
        JsonValue::Integer(i) => int_bytes(i as int),
        JsonValue::Float(_) => Seq::empty(),
        JsonValue::Str(s) => seq![34u8] + encode_utf8(s@) + seq![34u8],
        JsonValue::Bytes(b) => seq![34u8] + b@ + seq![34u8],
        JsonValue::Timestamp => seq![34u8] + epoch_stub_bytes() + seq![34u8],
        JsonValue::Array(a) => seq![91u8] + seq_items_bytes(a@) + seq![93u8],
        JsonValue::Object(m) => seq![123u8] + map_entries_bytes(m@) + seq![125u8],
    }
}

/// The text between an array's brackets: its items' texts, separated by
/// commas.
pub open spec fn seq_items_bytes(s: Seq<JsonValue>) -> Seq<u8>
    decreases s,
{
    if s.len() == 0 {
        Seq::empty()
    } else if s.len() == 1 {
        json_bytes(s.last())
    } else {
        seq_items_bytes(s.drop_last()) + seq![44u8] + json_bytes(s.last())
    }
}

/// The text of one object entry: the quoted key, the colon, the value's
/// text.
pub open spec fn entry_bytes(e: (String, JsonValue)) -> Seq<u8>
    decreases e,
{
    seq![34u8] + encode_utf8(e.0@) + seq![34u8, 58u8] + json_bytes(e.1)
}

/// The text between an object's braces: its entries' texts, separated
/// by commas.
pub open spec fn map_entries_bytes(s: Seq<(String, JsonValue)>) -> Seq<u8>
    decreases s,
{
    if s.len() == 0 {
        Seq::empty()
    } else if s.len() == 1 {
        entry_bytes(s.last())
    } else {
        map_entries_bytes(s.drop_last()) + seq![44u8] + entry_bytes(s.last())
    }
}

/// A number's digit string is exactly as long as its digit count.
pub proof fn lemma_dec_digits_len(n: nat)
    ensures
        dec_digits(n).len() == dec_len(n),
    decreases n,
{
    if n >= 10 {
        lemma_dec_digits_len(n / 10);
    }
}

/// An integer's text is exactly as long as its counted length, sign
/// included.
pub proof fn lemma_int_bytes_len(v: int)
    ensures
        int_bytes(v).len() == dec_len_signed(v),
{
    if v < 0 {
        lemma_dec_digits_len((-v) as nat);
    } else {
        lemma_dec_digits_len(v as nat);
    }
}

/// Exactness: for every float-free value, the computed size is the byte
/// length of the value's JSON text.
pub proof fn lemma_json_size_is_text_len(v: JsonValue)
    requires
        float_free(v),
    ensures
        json_bytes(v).len() == json_size(v),
    decreases v,
{
    match v {
        JsonValue::Integer(i) => {
            lemma_int_bytes_len(i as int);
        },
        JsonValue::Array(a) => {
            lemma_seq_items_bytes_len(a@);
        },
        JsonValue::Object(m) => {
            lemma_map_entries_bytes_len(m@);
        },
        _ => {},
    }
}

/// Exactness, stated against the size computation's contract: on a
/// float-free value, the result that `size_of` is bound to return is
/// `Ok` of the byte length of the value's JSON text.
pub proof fn lemma_size_of_exact(v: JsonValue, r: Result<usize, crate::serializer::Error>)
    requires
        float_free(v),
        json_size(v) <= usize::MAX,
        r == Ok::<usize, crate::serializer::Error>(json_size(v) as usize),
    ensures
        r == Ok::<usize, crate::serializer::Error>(json_bytes(v).len() as usize),
{
    lemma_json_size_is_text_len(v);
}

/// The items' text between brackets is exactly the items' sizes plus
/// the separating commas.
pub proof fn lemma_seq_items_bytes_len(s: Seq<JsonValue>)
    requires
        seq_float_free(s),
    ensures
        seq_items_bytes(s).len() == seq_items_size(s) + comma_total(s.len()),
    decreases s,
{
    if s.len() == 0 {
    } else {
        lemma_seq_items_bytes_len(s.drop_last());
        lemma_json_size_is_text_len(s.last());
    }
}

/// The entries' text between braces is exactly the entries' sizes plus
/// the separating commas.
pub proof fn lemma_map_entries_bytes_len(s: Seq<(String, JsonValue)>)
    requires
        map_float_free(s),
    ensures
        map_entries_bytes(s).len() == map_entries_size(s) + comma_total(s.len()),
    decreases s,
{
    if s.len() == 0 {
    } else {
        lemma_map_entries_bytes_len(s.drop_last());
        lemma_json_size_is_text_len(s.last().1);
        assert(entry_bytes(s.last()).len() == entry_size(s.last()));
    }
}

} // verus!
