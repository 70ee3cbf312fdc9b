//! The structured value model and the size computation over it: a
//! canonicalizing adapter walks a value and drives the accumulating
//! serializer, so that the result is exactly the byte length of the
//! value's JSON text.

use crate::digits::dec_len_signed;
use crate::serializer::{str_byte_len, Error, Serializer, EPOCH_RFC3339};
use vstd::prelude::*;

verus! {

/// A structured value, as the data pipeline holds it in memory: a closed
/// set of variants that the size computation walks without mutating.
///
/// Two variants stand for data the verified core cannot hold directly:
/// `Float` carries the byte length of the float's shortest round-trip
/// decimal rendering (computed by the caller with a formatter such as
/// ryu), and `Timestamp` carries nothing, since every timestamp is
/// counted at the fixed millisecond-precision UTC width.
pub enum JsonValue {
    /// `null`.
    Null,
    /// `true` or `false`.
    Boolean(bool),
    /// A 64-bit signed integer.
    Integer(i64),
    /// A 64-bit float, reduced to the byte length of its rendering.
    Float(usize),
    /// A text string, rendered quoted and unescaped.
    Str(String),
    /// A byte buffer, rendered as a quoted string of the same length.
    Bytes(Vec<u8>),
    /// A timestamp, counted at the fixed epoch stand-in width.
    Timestamp,
    /// An ordered sequence of values.
    Array(Vec<JsonValue>),
    /// A mapping from string keys to values, in insertion order.
    Object(Vec<(String, JsonValue)>),
}

/// The commas separating `n` items: one fewer than the items, none when
/// the collection is empty.
pub open spec fn comma_total(n: nat) -> nat {
    if n == 0 {
        0
    } else {
        (n - 1) as nat
    }
}

/// The exact byte length of the JSON text a conforming encoder would
/// produce for `v`, under the two documented approximations: string and
/// buffer content is counted unescaped, and a timestamp is counted as
/// the 24-byte millisecond-precision UTC form plus its quotes.
pub open spec fn json_size(v: JsonValue) -> nat
    decreases v,
{
    match v {
        JsonValue::Null => 4,
        JsonValue::Boolean(b) => if b {
            4
        } else {
            5
        },
        JsonValue::Integer(i) => dec_len_signed(i as int),
        JsonValue::Float(n) => n as nat,
        JsonValue::Str(s) => 2 + str_byte_len(s@),
        JsonValue::Bytes(b) => 2 + b@.len(),
        JsonValue::Timestamp => 26,
        JsonValue::Array(a) => 2 + seq_items_size(a@) + comma_total(a@.len()),
        JsonValue::Object(m) => 2 + map_entries_size(m@) + comma_total(m@.len()),
    }
}

/// The sizes of a sequence's items, commas and brackets not included.
pub open spec fn seq_items_size(s: Seq<JsonValue>) -> nat
    decreases s,
{
    if s.len() == 0 {
        0
    } else {
        seq_items_size(s.drop_last()) + json_size(s.last())
    }
}

/// The size of one object entry: the quoted key, the colon, and the
/// value.
pub open spec fn entry_size(e: (String, JsonValue)) -> nat
    decreases e,
{
    2 + str_byte_len(e.0@) + 1 + json_size(e.1)
}

/// The sizes of an object's entries, commas and braces not included.
pub open spec fn map_entries_size(s: Seq<(String, JsonValue)>) -> nat
    decreases s,
{
    if s.len() == 0 {
        0
    } else {
        map_entries_size(s.drop_last()) + entry_size(s.last())
    }
}

/// Appending an item adds exactly its size to the item total.
pub proof fn lemma_seq_items_size_push(s: Seq<JsonValue>, x: JsonValue)
    ensures
        seq_items_size(s.push(x)) == seq_items_size(s) + json_size(x),
{
    assert(s.push(x).drop_last() =~= s);
    assert(s.push(x).last() == x);
}

/// Appending an entry adds exactly its size to the entry total.
pub proof fn lemma_map_entries_size_push(s: Seq<(String, JsonValue)>, e: (String, JsonValue))
    ensures
        map_entries_size(s.push(e)) == map_entries_size(s) + entry_size(e),
{
    assert(s.push(e).drop_last() =~= s);
    assert(s.push(e).last() == e);
}

/// A prefix of a sequence never outweighs the whole.
pub proof fn lemma_seq_items_size_prefix(s: Seq<JsonValue>, i: int)
    requires
        0 <= i <= s.len(),
    ensures
        seq_items_size(s.subrange(0, i)) <= seq_items_size(s),
    decreases s.len() - i,
{
    if i == s.len() {
        assert(s.subrange(0, i) =~= s);
    } else {
        assert(s.subrange(0, i + 1) =~= s.subrange(0, i).push(s[i]));
        lemma_seq_items_size_push(s.subrange(0, i), s[i]);
        lemma_seq_items_size_prefix(s, i + 1);
    }
}

/// A prefix of an object's entries never outweighs the whole.
pub proof fn lemma_map_entries_size_prefix(s: Seq<(String, JsonValue)>, i: int)
    requires
        0 <= i <= s.len(),
    ensures
        map_entries_size(s.subrange(0, i)) <= map_entries_size(s),
    decreases s.len() - i,
{
    if i == s.len() {
        assert(s.subrange(0, i) =~= s);
    } else {
        assert(s.subrange(0, i + 1) =~= s.subrange(0, i).push(s[i]));
        lemma_map_entries_size_push(s.subrange(0, i), s[i]);
        lemma_map_entries_size_prefix(s, i + 1);
    }
}

/// Appending an element to an array never decreases its size.
pub proof fn lemma_array_push_size_monotonic(
    a1: Vec<JsonValue>,
    a2: Vec<JsonValue>,
    extra: JsonValue,
)
    requires
        a2@ == a1@.push(extra),
    ensures
        json_size(JsonValue::Array(a2)) >= json_size(JsonValue::Array(a1)),
{
    lemma_seq_items_size_push(a1@, extra);
}

/// Adding an entry to an object never decreases its size.
pub proof fn lemma_object_push_size_monotonic(
    m1: Vec<(String, JsonValue)>,
    m2: Vec<(String, JsonValue)>,
    extra: (String, JsonValue),
)
    requires
        m2@ == m1@.push(extra),
    ensures
        json_size(JsonValue::Object(m2)) >= json_size(JsonValue::Object(m1)),
{
    lemma_map_entries_size_push(m1@, extra);
}

/// The canonicalizing adapter: a view of a [`JsonValue`] that drives the
/// serialization protocol the way the real encoder renders the value, so
/// byte buffers are counted as quoted strings and timestamps at the
/// fixed epoch stand-in width, at every nesting depth.
pub struct JsonEncodedValue<'a>(pub &'a JsonValue);

impl<'a> JsonEncodedValue<'a> {
    /// Walks the value and adds its exact JSON-encoded size to the
    /// serializer's counter.
    pub fn serialize(&self, serializer: &mut Serializer) -> (r: Result<(), Error>)
        requires
            old(serializer).bytes + json_size(*self.0) <= usize::MAX,
            old(serializer).start_collection == false,
        ensures
            r is Ok,
            final(serializer).bytes == old(serializer).bytes + json_size(*self.0),
            final(serializer).start_collection == false,
        decreases *self.0,
    {
        match self.0 {
            JsonValue::Null => serializer.serialize_unit(),
            JsonValue::Boolean(b) => serializer.serialize_bool(*b),
            JsonValue::Integer(i) => serializer.serialize_i64(*i),
            JsonValue::Float(len) => serializer.serialize_float_len(*len),
            JsonValue::Str(s) => serializer.serialize_str(s.as_str()),
            JsonValue::Bytes(b) => serializer.serialize_bytes(b.as_slice()),
            JsonValue::Timestamp => {
                let epoch: &str = EPOCH_RFC3339;
                proof {
                    reveal_strlit("1970-01-01T00:00:00.000Z");
                    assert(epoch@.len() == 24);
                    assert(vstd::utf8::is_ascii_chars(epoch@));
                    vstd::utf8::is_ascii_chars_encode_utf8(epoch@);
                    assert(str_byte_len(epoch@) == 24);
                }
                serializer.serialize_str(epoch)
            },
            JsonValue::Array(arr) => {
                let ghost b0: int = serializer.bytes as int;
                let ghost total: int = json_size(*self.0) as int;
                serializer.serialize_seq(None)?;
                let n = arr.len();
                let mut i: usize = 0;
                while i < n
                    invariant
                        n == arr@.len(),
                        i <= n,
                        *self.0 == JsonValue::Array(*arr),
                        total == json_size(*self.0),
                        b0 + total <= usize::MAX,
                        serializer.bytes == b0 + 1 + seq_items_size(arr@.subrange(0, i as int))
                            + comma_total(i as nat),
                        serializer.start_collection == (i == 0),
                    decreases n - i,
                {
                    proof {
                        lemma_seq_items_size_prefix(arr@, i as int);
                        lemma_seq_items_size_prefix(arr@, i + 1);
                        assert(arr@.subrange(0, i + 1) =~= arr@.subrange(0, i as int).push(
                            arr@[i as int],
                        ));
                        lemma_seq_items_size_push(arr@.subrange(0, i as int), arr@[i as int]);
                    }
                    serializer.serialize_element()?;
                    let elem = JsonEncodedValue(&arr[i]);
                    proof {
                        assert(decreases_to!(*self.0 => *arr));
                        assert(decreases_to!(*arr => arr@));
                        assert(decreases_to!(arr@ => arr@[i as int]));
                    }
                    elem.serialize(serializer)?;
                    i = i + 1;
                }
                proof {
                    assert(arr@.subrange(0, n as int) =~= arr@);
                }
                serializer.end_seq()
            },
            JsonValue::Object(entries) => {
                let ghost b0: int = serializer.bytes as int;
                let ghost total: int = json_size(*self.0) as int;
                serializer.serialize_map(None)?;
                let n = entries.len();
                let mut i: usize = 0;
                while i < n
                    invariant
                        n == entries@.len(),
                        i <= n,
                        *self.0 == JsonValue::Object(*entries),
                        total == json_size(*self.0),
                        b0 + total <= usize::MAX,
                        serializer.bytes == b0 + 1 + map_entries_size(
                            entries@.subrange(0, i as int),
                        ) + comma_total(i as nat),
                        serializer.start_collection == (i == 0),
                    decreases n - i,
                {
                    proof {
                        lemma_map_entries_size_prefix(entries@, i as int);
                        lemma_map_entries_size_prefix(entries@, i + 1);
                        assert(entries@.subrange(0, i + 1) =~= entries@.subrange(0, i as int).push(
                            entries@[i as int],
                        ));
                        lemma_map_entries_size_push(
                            entries@.subrange(0, i as int),
                            entries@[i as int],
                        );
                    }
                    serializer.serialize_key()?;
                    let pair = &entries[i];
                    serializer.serialize_str(pair.0.as_str())?;
                    serializer.serialize_value()?;
                    let elem = JsonEncodedValue(&pair.1);
                    proof {
                        assert(decreases_to!(*self.0 => *entries));
                        assert(decreases_to!(*entries => entries@));
                        assert(decreases_to!(entries@ => entries@[i as int]));
                        assert(decreases_to!(entries@[i as int] => entries@[i as int].1));
                    }
                    elem.serialize(serializer)?;
                    i = i + 1;
                }
                proof {
                    assert(entries@.subrange(0, n as int) =~= entries@);
                }
                serializer.end_map()
            },
        }
    }
}

/// Return the size of `value` as represented by a JSON-encoded string.
///
/// Sizing a value of this model never fails: the result is always `Ok`
/// of the exact byte count. The `Err` side exists for callers that treat
/// any sizing failure as "size unknown".
pub fn size_of(value: &JsonValue) -> (r: Result<usize, Error>)
    requires
        json_size(*value) <= usize::MAX,
    ensures
        r == Ok::<usize, Error>(json_size(*value) as usize),
{
    let mut serializer = Serializer::new();
    let wrapped = JsonEncodedValue(value);
    wrapped.serialize(&mut serializer)?;
    Ok(serializer.bytes)
}

/// The byte count a value would occupy as JSON text.
pub trait JsonEncodedSizeOf {
    /// What the count is, as a mathematical function of the value.
    spec fn spec_json_size(&self) -> nat;

    /// Computes the count.
    fn json_encoded_size_of(&self) -> (n: usize)
        requires
            self.spec_json_size() <= usize::MAX,
        ensures
            n == self.spec_json_size(),
    ;
}

impl JsonEncodedSizeOf for JsonValue {
    open spec fn spec_json_size(&self) -> nat {
        json_size(*self)
    }

    fn json_encoded_size_of(&self) -> (n: usize) {
        match size_of(self) {
            Ok(n) => n,
            Err(_) => vstd::pervasive::unreached(),
        }
    }
}

/// Sizing is deterministic: the contract of `size_of` pins its result to
/// `Ok` of `json_size` of the input and nothing else, so any two calls
/// on the same value return the same result.
pub proof fn lemma_size_of_deterministic(
    v: JsonValue,
    r1: Result<usize, Error>,
    r2: Result<usize, Error>,
)
    requires
        r1 == Ok::<usize, Error>(json_size(v) as usize),
        r2 == Ok::<usize, Error>(json_size(v) as usize),
    ensures
        r1 == r2,
{
}

} // verus!

