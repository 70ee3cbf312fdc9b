//! The accumulating serializer: every entry point of the serialization
//! protocol, each adding to a single byte counter exactly what a JSON
//! encoder would emit for that fragment, and emitting nothing.
//!
//! Collections share a single "start of collection" cursor: opening a
//! collection sets it, the first element clears it instead of charging a
//! comma, and every later element charges one comma.

use crate::digits::dec_len_signed;
use vstd::prelude::*;

verus! {

/// Bytes of `null` (and of an absent optional value).
pub const NULL_SIZE: usize = 4;

/// Bytes of `true`.
pub const TRUE_SIZE: usize = 4;

/// Bytes of `false`.
pub const FALSE_SIZE: usize = 5;

/// One bracket, `[` or `]`.
pub const BRACKET_SIZE: usize = 1;

/// A brace pair, `{` and `}` together.
pub const BRACES_SIZE: usize = 2;

/// One brace, `{` or `}`.
pub const BRACE_SIZE: usize = 1;

/// A quote pair around a string.
pub const QUOTES_SIZE: usize = 2;

/// One `,` separator.
pub const COMMA_SIZE: usize = 1;

/// One `:` separator.
pub const COLON_SIZE: usize = 1;

/// The stand-in text a timestamp is counted as: millisecond precision,
/// UTC offset, fixed-width fields.
pub const EPOCH_RFC3339: &'static str = "1970-01-01T00:00:00.000Z";

/// The byte length of a string's UTF-8 encoding.
pub open spec fn str_byte_len(s: Seq<char>) -> nat {
    vstd::utf8::encode_utf8(s).len()
}

/// The byte length of one character's UTF-8 encoding, by codepoint range.
pub open spec fn char_utf8_len(c: char) -> nat {
    if (c as u32) < 0x80 {
        1
    } else if (c as u32) < 0x800 {
        2
    } else if (c as u32) < 0x10000 {
        3
    } else {
        4
    }
}

/// The one failure the protocol can signal: a value is not representable.
/// Sizing itself never fails; the kind exists so that a caller can
/// propagate "size unknown" without any further detail.
#[derive(Debug, Clone, Copy, PartialEq, Eq)]
pub struct Error;

/// The accumulating serializer: a running byte count and the
/// "start of collection" cursor. The counter only ever increases; every
/// method's contract adds a non-negative amount.
pub struct Serializer {
    /// The bytes counted so far.
    pub bytes: usize,
    /// Whether the next element written into the open collection is its
    /// first, so that no comma is charged before it.
    pub start_collection: bool,
}

impl Serializer {
    /// A fresh counter, before any fragment has been counted.
    pub fn new() -> (s: Serializer)
        ensures
            s.bytes == 0,
            s.start_collection == false,
    {
        Serializer { bytes: 0, start_collection: false }
    }

    /// `true` or `false`.
    pub fn serialize_bool(&mut self, v: bool) -> (r: Result<(), Error>)
        requires
            old(self).bytes + (if v {
                4int
            } else {
                5int
            }) <= usize::MAX,
        ensures
            r is Ok,
            final(self).bytes == old(self).bytes + (if v {
                4int
            } else {
                5int
            }),
            final(self).start_collection == old(self).start_collection,
    {
        self.bytes = self.bytes + (if v {
            TRUE_SIZE
        } else {
            FALSE_SIZE
        });
        Ok(())
    }

    /// The decimal digits of `v`, sign included.
    pub fn serialize_i8(&mut self, v: i8) -> (r: Result<(), Error>)
        requires
            old(self).bytes + dec_len_signed(v as int) <= usize::MAX,
        ensures
            r is Ok,
            final(self).bytes == old(self).bytes + dec_len_signed(v as int),
            final(self).start_collection == old(self).start_collection,
    {
        proof {
            crate::digits::lemma_dec_len_i64(v as i64);
        }
        if v < -99 {
            self.bytes = self.bytes + 4;
        } else if v < -9 {
            self.bytes = self.bytes + 3;
        } else if v < 0 {
            self.bytes = self.bytes + 2;
        } else if v < 10 {
            self.bytes = self.bytes + 1;
        } else if v < 100 {
            self.bytes = self.bytes + 2;
        } else {
            self.bytes = self.bytes + 3;
        }
        Ok(())
    }

    /// The decimal digits of `v`, sign included.
    pub fn serialize_i16(&mut self, v: i16) -> (r: Result<(), Error>)
        requires
            old(self).bytes + dec_len_signed(v as int) <= usize::MAX,
        ensures
            r is Ok,
            final(self).bytes == old(self).bytes + dec_len_signed(v as int),
            final(self).start_collection == old(self).start_collection,
    {
        proof {
            crate::digits::lemma_dec_len_i64(v as i64);
        }
        if v < -9_999 {
            self.bytes = self.bytes + 6;
        } else if v < -999 {
            self.bytes = self.bytes + 5;
        } else if v < -99 {
            self.bytes = self.bytes + 4;
        } else if v < -9 {
            self.bytes = self.bytes + 3;
        } else if v < 0 {
            self.bytes = self.bytes + 2;
        } else if v < 10 {
            self.bytes = self.bytes + 1;
        } else if v < 100 {
            self.bytes = self.bytes + 2;
        } else if v < 1_000 {
            self.bytes = self.bytes + 3;
        } else if v < 10_000 {
            self.bytes = self.bytes + 4;
        } else {
            self.bytes = self.bytes + 5;
        }
        Ok(())
    }

    /// The decimal digits of `v`, sign included.
    pub fn serialize_i32(&mut self, v: i32) -> (r: Result<(), Error>)
        requires
            old(self).bytes + dec_len_signed(v as int) <= usize::MAX,
        ensures
            r is Ok,
            final(self).bytes == old(self).bytes + dec_len_signed(v as int),
            final(self).start_collection == old(self).start_collection,
    {
        proof {
            crate::digits::lemma_dec_len_i64(v as i64);
        }
        if v < -999_999_999 {
            self.bytes = self.bytes + 11;
        } else if v < -99_999_999 {
            self.bytes = self.bytes + 10;
        } else if v < -9_999_999 {
            self.bytes = self.bytes + 9;
        } else if v < -999_999 {
            self.bytes = self.bytes + 8;
        } else if v < -99_999 {
            self.bytes = self.bytes + 7;
        } else if v < -9_999 {
            self.bytes = self.bytes + 6;
        } else if v < -999 {
            self.bytes = self.bytes + 5;
        } else if v < -99 {
            self.bytes = self.bytes + 4;
        } else if v < -9 {
            self.bytes = self.bytes + 3;
        } else if v < 0 {
            self.bytes = self.bytes + 2;
        } else if v < 10 {
            self.bytes = self.bytes + 1;
        } else if v < 100 {
            self.bytes = self.bytes + 2;
        } else if v < 1_000 {
            self.bytes = self.bytes + 3;
        } else if v < 10_000 {
            self.bytes = self.bytes + 4;
        } else if v < 100_000 {
            self.bytes = self.bytes + 5;
        } else if v < 1_000_000 {
            self.bytes = self.bytes + 6;
        } else if v < 10_000_000 {
            self.bytes = self.bytes + 7;
        } else if v < 100_000_000 {
            self.bytes = self.bytes + 8;
        } else if v < 1_000_000_000 {
            self.bytes = self.bytes + 9;
        } else {
            self.bytes = self.bytes + 10;
        }
        Ok(())
    }

    /// The decimal digits of `v`, sign included.
    pub fn serialize_i64(&mut self, v: i64) -> (r: Result<(), Error>)
        requires
            old(self).bytes + dec_len_signed(v as int) <= usize::MAX,
        ensures
            r is Ok,
            final(self).bytes == old(self).bytes + dec_len_signed(v as int),
            final(self).start_collection == old(self).start_collection,
    {
        proof {
            crate::digits::lemma_dec_len_i64(v);
        }
        if v < -999_999_999_999_999_999 {
            self.bytes = self.bytes + 20;
        } else if v < -99_999_999_999_999_999 {
            self.bytes = self.bytes + 19;
        } else if v < -9_999_999_999_999_999 {
            self.bytes = self.bytes + 18;
        } else if v < -999_999_999_999_999 {
            self.bytes = self.bytes + 17;
        } else if v < -99_999_999_999_999 {
            self.bytes = self.bytes + 16;
        } else if v < -9_999_999_999_999 {
            self.bytes = self.bytes + 15;
        } else if v < -999_999_999_999 {
            self.bytes = self.bytes + 14;
        } else if v < -99_999_999_999 {
            self.bytes = self.bytes + 13;
        } else if v < -9_999_999_999 {
            self.bytes = self.bytes + 12;
        } else if v < -999_999_999 {
            self.bytes = self.bytes + 11;
        } else if v < -99_999_999 {
            self.bytes = self.bytes + 10;
        } else if v < -9_999_999 {
            self.bytes = self.bytes + 9;
        } else if v < -999_999 {
            self.bytes = self.bytes + 8;
        } else if v < -99_999 {
            self.bytes = self.bytes + 7;
        } else if v < -9_999 {
            self.bytes = self.bytes + 6;
        } else if v < -999 {
            self.bytes = self.bytes + 5;
        } else if v < -99 {
            self.bytes = self.bytes + 4;
        } else if v < -9 {
            self.bytes = self.bytes + 3;
        } else if v < 0 {
            self.bytes = self.bytes + 2;
        } else if v < 10 {
            self.bytes = self.bytes + 1;
        } else if v < 100 {
            self.bytes = self.bytes + 2;
        } else if v < 1_000 {
            self.bytes = self.bytes + 3;
        } else if v < 10_000 {
            self.bytes = self.bytes + 4;
        } else if v < 100_000 {
            self.bytes = self.bytes + 5;
        } else if v < 1_000_000 {
            self.bytes = self.bytes + 6;
        } else if v < 10_000_000 {
            self.bytes = self.bytes + 7;
        } else if v < 100_000_000 {
            self.bytes = self.bytes + 8;
        } else if v < 1_000_000_000 {
            self.bytes = self.bytes + 9;
        } else if v < 10_000_000_000 {
            self.bytes = self.bytes + 10;
        } else if v < 100_000_000_000 {
            self.bytes = self.bytes + 11;
        } else if v < 1_000_000_000_000 {
            self.bytes = self.bytes + 12;
        } else if v < 10_000_000_000_000 {
            self.bytes = self.bytes + 13;
        } else if v < 100_000_000_000_000 {
            self.bytes = self.bytes + 14;
        } else if v < 1_000_000_000_000_000 {
            self.bytes = self.bytes + 15;
        } else if v < 10_000_000_000_000_000 {
            self.bytes = self.bytes + 16;
        } else if v < 100_000_000_000_000_000 {
            self.bytes = self.bytes + 17;
        } else if v < 1_000_000_000_000_000_000 {
            self.bytes = self.bytes + 18;
        } else {
            self.bytes = self.bytes + 19;
        }
        Ok(())
    }

    /// The decimal digits of `v`.
    pub fn serialize_u8(&mut self, v: u8) -> (r: Result<(), Error>)
        requires
            old(self).bytes + crate::digits::dec_len(v as nat) <= usize::MAX,
        ensures
            r is Ok,
            final(self).bytes == old(self).bytes + crate::digits::dec_len(v as nat),
            final(self).start_collection == old(self).start_collection,
    {
        proof {
            crate::digits::lemma_dec_len_u64(v as u64);
        }
        if v < 10 {
            self.bytes = self.bytes + 1;
        } else if v < 100 {
            self.bytes = self.bytes + 2;
        } else {
            self.bytes = self.bytes + 3;
        }
        Ok(())
    }

    /// The decimal digits of `v`.
    pub fn serialize_u16(&mut self, v: u16) -> (r: Result<(), Error>)
        requires
            old(self).bytes + crate::digits::dec_len(v as nat) <= usize::MAX,
        ensures
            r is Ok,
            final(self).bytes == old(self).bytes + crate::digits::dec_len(v as nat),
            final(self).start_collection == old(self).start_collection,
    {
        proof {
            crate::digits::lemma_dec_len_u64(v as u64);
        }
        if v < 10 {
            self.bytes = self.bytes + 1;
        } else if v < 100 {
            self.bytes = self.bytes + 2;
        } else if v < 1_000 {
            self.bytes = self.bytes + 3;
        } else if v < 10_000 {
            self.bytes = self.bytes + 4;
        } else {
            self.bytes = self.bytes + 5;
        }
        Ok(())
    }

    /// The decimal digits of `v`.
    pub fn serialize_u32(&mut self, v: u32) -> (r: Result<(), Error>)
        requires
            old(self).bytes + crate::digits::dec_len(v as nat) <= usize::MAX,
        ensures
            r is Ok,
            final(self).bytes == old(self).bytes + crate::digits::dec_len(v as nat),
            final(self).start_collection == old(self).start_collection,
    {
        proof {
            crate::digits::lemma_dec_len_u64(v as u64);
        }
        if v < 10 {
            self.bytes = self.bytes + 1;
        } else if v < 100 {
            self.bytes = self.bytes + 2;
        } else if v < 1_000 {
            self.bytes = self.bytes + 3;
        } else if v < 10_000 {
            self.bytes = self.bytes + 4;
        } else if v < 100_000 {
            self.bytes = self.bytes + 5;
        } else if v < 1_000_000 {
            self.bytes = self.bytes + 6;
        } else if v < 10_000_000 {
            self.bytes = self.bytes + 7;
        } else if v < 100_000_000 {
            self.bytes = self.bytes + 8;
        } else if v < 1_000_000_000 {
            self.bytes = self.bytes + 9;
        } else {
            self.bytes = self.bytes + 10;
        }
        Ok(())
    }

    /// The decimal digits of `v`.
    pub fn serialize_u64(&mut self, v: u64) -> (r: Result<(), Error>)
        requires
            old(self).bytes + crate::digits::dec_len(v as nat) <= usize::MAX,
        ensures
            r is Ok,
            final(self).bytes == old(self).bytes + crate::digits::dec_len(v as nat),
            final(self).start_collection == old(self).start_collection,
    {
        proof {
            crate::digits::lemma_dec_len_u64(v);
        }
        if v < 10 {
            self.bytes = self.bytes + 1;
        } else if v < 100 {
            self.bytes = self.bytes + 2;
        } else if v < 1_000 {
            self.bytes = self.bytes + 3;
        } else if v < 10_000 {
            self.bytes = self.bytes + 4;
        } else if v < 100_000 {
            self.bytes = self.bytes + 5;
        } else if v < 1_000_000 {
            self.bytes = self.bytes + 6;
        } else if v < 10_000_000 {
            self.bytes = self.bytes + 7;
        } else if v < 100_000_000 {
            self.bytes = self.bytes + 8;
        } else if v < 1_000_000_000 {
            self.bytes = self.bytes + 9;
        } else if v < 10_000_000_000 {
            self.bytes = self.bytes + 10;
        } else if v < 100_000_000_000 {
            self.bytes = self.bytes + 11;
        } else if v < 1_000_000_000_000 {
            self.bytes = self.bytes + 12;
        } else if v < 10_000_000_000_000 {
            self.bytes = self.bytes + 13;
        } else if v < 100_000_000_000_000 {
            self.bytes = self.bytes + 14;
        } else if v < 1_000_000_000_000_000 {
            self.bytes = self.bytes + 15;
        } else if v < 10_000_000_000_000_000 {
            self.bytes = self.bytes + 16;
        } else if v < 100_000_000_000_000_000 {
            self.bytes = self.bytes + 17;
        } else if v < 1_000_000_000_000_000_000 {
            self.bytes = self.bytes + 18;
        } else if v < 10_000_000_000_000_000_000 {
            self.bytes = self.bytes + 19;
        } else {
            self.bytes = self.bytes + 20;
        }
        Ok(())
    }

    /// The byte length of a float's shortest round-trip decimal form,
    /// as computed by the caller with a minimal-length formatter.
    /// Floating-point values never enter the verified core; only the
    /// length of their rendering does.
    pub fn serialize_float_len(&mut self, len: usize) -> (r: Result<(), Error>)
        requires
            old(self).bytes + len <= usize::MAX,
        ensures
            r is Ok,
            final(self).bytes == old(self).bytes + len,
            final(self).start_collection == old(self).start_collection,
    {
        self.bytes = self.bytes + len;
        Ok(())
    }

    /// A quoted single character.
    pub fn serialize_char(&mut self, v: char) -> (r: Result<(), Error>)
        requires
            old(self).bytes + QUOTES_SIZE + char_utf8_len(v) <= usize::MAX,
        ensures
            r is Ok,
            final(self).bytes == old(self).bytes + QUOTES_SIZE + char_utf8_len(v),
            final(self).start_collection == old(self).start_collection,
    {
        let code = v as u32;
        let width: usize = if code < 0x80 {
            1
        } else if code < 0x800 {
            2
        } else if code < 0x10000 {
            3
        } else {
            4
        };
        self.bytes = self.bytes + QUOTES_SIZE + width;
        Ok(())
    }

    /// A quoted string: the quote pair plus the raw content bytes.
    /// Backslash escaping of the content is not accounted for, a
    /// documented approximation.
    pub fn serialize_str(&mut self, v: &str) -> (r: Result<(), Error>)
        requires
            old(self).bytes + QUOTES_SIZE + str_byte_len(v@) <= usize::MAX,
        ensures
            r is Ok,
            final(self).bytes == old(self).bytes + QUOTES_SIZE + str_byte_len(v@),
            final(self).start_collection == old(self).start_collection,
    {
        self.bytes = self.bytes + QUOTES_SIZE + v.len();
        Ok(())
    }

    /// A byte buffer counted as though it were a quoted string of the
    /// same length, since the encoder renders buffers as strings, never
    /// as arrays of small integers.
    pub fn serialize_bytes(&mut self, v: &[u8]) -> (r: Result<(), Error>)
        requires
            old(self).bytes + QUOTES_SIZE + v@.len() <= usize::MAX,
        ensures
            r is Ok,
            final(self).bytes == old(self).bytes + QUOTES_SIZE + v@.len(),
            final(self).start_collection == old(self).start_collection,
    {
        self.bytes = self.bytes + QUOTES_SIZE + v.len();
        Ok(())
    }

    /// An absent optional value is counted exactly like `null`.
    pub fn serialize_none(&mut self) -> (r: Result<(), Error>)
        requires
            old(self).bytes + NULL_SIZE <= usize::MAX,
        ensures
            r is Ok,
            final(self).bytes == old(self).bytes + NULL_SIZE,
            final(self).start_collection == old(self).start_collection,
    {
        self.serialize_unit()
    }

    /// A present optional value adds no framing of its own: JSON has no
    /// wrapper syntax, so the caller serializes the inner value next and
    /// nothing is charged here.
    pub fn serialize_some(&mut self) -> (r: Result<(), Error>)
        ensures
            r is Ok,
            final(self).bytes == old(self).bytes,
            final(self).start_collection == old(self).start_collection,
    {
        Ok(())
    }

    /// `null`.
    pub fn serialize_unit(&mut self) -> (r: Result<(), Error>)
        requires
            old(self).bytes + NULL_SIZE <= usize::MAX,
        ensures
            r is Ok,
            final(self).bytes == old(self).bytes + NULL_SIZE,
            final(self).start_collection == old(self).start_collection,
    {
        self.bytes = self.bytes + NULL_SIZE;
        Ok(())
    }

    /// A unit struct is encoded as `null`.
    pub fn serialize_unit_struct(&mut self, _name: &str) -> (r: Result<(), Error>)
        requires
            old(self).bytes + NULL_SIZE <= usize::MAX,
        ensures
            r is Ok,
            final(self).bytes == old(self).bytes + NULL_SIZE,
            final(self).start_collection == old(self).start_collection,
    {
        self.serialize_unit()
    }

    /// A unit enum variant is encoded as the quoted variant tag.
    pub fn serialize_unit_variant(
        &mut self,
        _name: &str,
        _variant_index: u32,
        variant: &str,
    ) -> (r: Result<(), Error>)
        requires
            old(self).bytes + QUOTES_SIZE + str_byte_len(variant@) <= usize::MAX,
        ensures
            r is Ok,
            final(self).bytes == old(self).bytes + QUOTES_SIZE + str_byte_len(variant@),
            final(self).start_collection == old(self).start_collection,
    {
        self.serialize_str(variant)
    }

    /// A newtype struct is encoded as its inner value alone, which the
    /// caller serializes next; nothing is charged here.
    pub fn serialize_newtype_struct(&mut self, _name: &str) -> (r: Result<(), Error>)
        ensures
            r is Ok,
            final(self).bytes == old(self).bytes,
            final(self).start_collection == old(self).start_collection,
    {
        Ok(())
    }

    /// A newtype enum variant, `{"Tag":value}`: the brace pair, the
    /// quoted tag and the colon are charged here; the caller serializes
    /// the inner value next.
    pub fn serialize_newtype_variant(
        &mut self,
        _name: &str,
        _variant_index: u32,
        variant: &str,
    ) -> (r: Result<(), Error>)
        requires
            old(self).bytes + BRACES_SIZE + COLON_SIZE + QUOTES_SIZE + str_byte_len(variant@)
                <= usize::MAX,
        ensures
            r is Ok,
            final(self).bytes == old(self).bytes + BRACES_SIZE + COLON_SIZE + QUOTES_SIZE
                + str_byte_len(variant@),
            final(self).start_collection == old(self).start_collection,
    {
        self.bytes = self.bytes + BRACES_SIZE + COLON_SIZE;
        self.serialize_str(variant)
    }

    /// Opens a sequence: one `[`, and the cursor marks the next element
    /// as the first.
    pub fn serialize_seq(&mut self, _len: Option<usize>) -> (r: Result<(), Error>)
        requires
            old(self).bytes + BRACKET_SIZE <= usize::MAX,
        ensures
            r is Ok,
            final(self).bytes == old(self).bytes + BRACKET_SIZE,
            final(self).start_collection == true,
    {
        self.start_collection = true;
        self.bytes = self.bytes + BRACKET_SIZE;
        Ok(())
    }

    /// A tuple is framed exactly like a sequence.
    pub fn serialize_tuple(&mut self, len: usize) -> (r: Result<(), Error>)
        requires
            old(self).bytes + BRACKET_SIZE <= usize::MAX,
        ensures
            r is Ok,
            final(self).bytes == old(self).bytes + BRACKET_SIZE,
            final(self).start_collection == true,
    {
        self.serialize_seq(Some(len))
    }

    /// A tuple struct is framed exactly like a sequence.
    pub fn serialize_tuple_struct(&mut self, _name: &str, len: usize) -> (r: Result<(), Error>)
        requires
            old(self).bytes + BRACKET_SIZE <= usize::MAX,
        ensures
            r is Ok,
            final(self).bytes == old(self).bytes + BRACKET_SIZE,
            final(self).start_collection == true,
    {
        self.serialize_seq(Some(len))
    }

    /// Opens a tuple enum variant, `{"Tag":[...]}`: the opening brace,
    /// the quoted tag, the colon and the opening bracket are charged
    /// here; the matching bracket and brace are charged by
    /// `end_tuple_variant`.
    pub fn serialize_tuple_variant(
        &mut self,
        _name: &str,
        _variant_index: u32,
        variant: &str,
        _len: usize,
    ) -> (r: Result<(), Error>)
        requires
            old(self).bytes + BRACE_SIZE + COLON_SIZE + BRACKET_SIZE + QUOTES_SIZE + str_byte_len(
                variant@,
            ) <= usize::MAX,
        ensures
            r is Ok,
            final(self).bytes == old(self).bytes + BRACE_SIZE + COLON_SIZE + BRACKET_SIZE
                + QUOTES_SIZE + str_byte_len(variant@),
            final(self).start_collection == true,
    {
        self.bytes = self.bytes + BRACE_SIZE + COLON_SIZE + BRACKET_SIZE;
        let r = self.serialize_str(variant);
        self.start_collection = true;
        r
    }

    /// Opens a map: one `{`, and the cursor marks the next entry as the
    /// first.
    pub fn serialize_map(&mut self, _len: Option<usize>) -> (r: Result<(), Error>)
        requires
            old(self).bytes + BRACE_SIZE <= usize::MAX,
        ensures
            r is Ok,
            final(self).bytes == old(self).bytes + BRACE_SIZE,
            final(self).start_collection == true,
    {
        self.start_collection = true;
        self.bytes = self.bytes + BRACE_SIZE;
        Ok(())
    }

    /// A struct is framed exactly like a map.
    pub fn serialize_struct(&mut self, _name: &str, len: usize) -> (r: Result<(), Error>)
        requires
            old(self).bytes + BRACE_SIZE <= usize::MAX,
        ensures
            r is Ok,
            final(self).bytes == old(self).bytes + BRACE_SIZE,
            final(self).start_collection == true,
    {
        self.serialize_map(Some(len))
    }

    /// Opens a struct enum variant, `{"Tag":{...}}`: the outer brace,
    /// the quoted tag, the colon and the inner brace are charged here;
    /// both closing braces are charged by `end_struct_variant`.
    pub fn serialize_struct_variant(
        &mut self,
        _name: &str,
        _variant_index: u32,
        variant: &str,
        _len: usize,
    ) -> (r: Result<(), Error>)
        requires
            old(self).bytes + BRACE_SIZE + COLON_SIZE + BRACE_SIZE + QUOTES_SIZE + str_byte_len(
                variant@,
            ) <= usize::MAX,
        ensures
            r is Ok,
            final(self).bytes == old(self).bytes + BRACE_SIZE + COLON_SIZE + BRACE_SIZE
                + QUOTES_SIZE + str_byte_len(variant@),
            final(self).start_collection == true,
    {
        self.bytes = self.bytes + BRACE_SIZE + COLON_SIZE + BRACE_SIZE;
        let r = self.serialize_str(variant);
        self.start_collection = true;
        r
    }

    /// Before a sequence element: one comma, unless the cursor still
    /// marks the first element, which clears it instead. The caller
    /// serializes the element's value next.
    pub fn serialize_element(&mut self) -> (r: Result<(), Error>)
        requires
            old(self).bytes + (if old(self).start_collection {
                0int
            } else {
                1int
            }) <= usize::MAX,
        ensures
            r is Ok,
            final(self).bytes == old(self).bytes + (if old(self).start_collection {
                0int
            } else {
                1int
            }),
            final(self).start_collection == false,
    {
        if !self.start_collection {
            self.bytes = self.bytes + COMMA_SIZE;
        }
        self.start_collection = false;
        Ok(())
    }

    /// Before a map key: the same comma rule as a sequence element. The
    /// caller serializes the key next.
    pub fn serialize_key(&mut self) -> (r: Result<(), Error>)
        requires
            old(self).bytes + (if old(self).start_collection {
                0int
            } else {
                1int
            }) <= usize::MAX,
        ensures
            r is Ok,
            final(self).bytes == old(self).bytes + (if old(self).start_collection {
                0int
            } else {
                1int
            }),
            final(self).start_collection == false,
    {
        if !self.start_collection {
            self.bytes = self.bytes + COMMA_SIZE;
        }
        self.start_collection = false;
        Ok(())
    }

    /// Between a map key and its value: one colon. The caller
    /// serializes the value next.
    pub fn serialize_value(&mut self) -> (r: Result<(), Error>)
        requires
            old(self).bytes + COLON_SIZE <= usize::MAX,
        ensures
            r is Ok,
            final(self).bytes == old(self).bytes + COLON_SIZE,
            final(self).start_collection == old(self).start_collection,
    {
        self.bytes = self.bytes + COLON_SIZE;
        Ok(())
    }

    /// Before a struct field's value: the comma rule, the quoted field
    /// name, and the colon. The caller serializes the value next.
    pub fn serialize_field(&mut self, key: &str) -> (r: Result<(), Error>)
        requires
            old(self).bytes + (if old(self).start_collection {
                0int
            } else {
                1int
            }) + QUOTES_SIZE + str_byte_len(key@) + COLON_SIZE <= usize::MAX,
        ensures
            r is Ok,
            final(self).bytes == old(self).bytes + (if old(self).start_collection {
                0int
            } else {
                1int
            }) + QUOTES_SIZE + str_byte_len(key@) + COLON_SIZE,
            final(self).start_collection == false,
    {
        if !self.start_collection {
            self.bytes = self.bytes + COMMA_SIZE;
        }
        self.start_collection = false;
        let r = self.serialize_str(key);
        self.bytes = self.bytes + COLON_SIZE;
        r
    }

    /// Closes a sequence, tuple or tuple struct: one `]`.
    pub fn end_seq(&mut self) -> (r: Result<(), Error>)
        requires
            old(self).bytes + BRACKET_SIZE <= usize::MAX,
        ensures
            r is Ok,
            final(self).bytes == old(self).bytes + BRACKET_SIZE,
            final(self).start_collection == false,
    {
        self.bytes = self.bytes + BRACKET_SIZE;
        self.start_collection = false;
        Ok(())
    }

    /// Closes a tuple enum variant: the `]` of the element list and the
    /// `}` of the variant wrapper.
    pub fn end_tuple_variant(&mut self) -> (r: Result<(), Error>)
        requires
            old(self).bytes + BRACKET_SIZE + BRACE_SIZE <= usize::MAX,
        ensures
            r is Ok,
            final(self).bytes == old(self).bytes + BRACKET_SIZE + BRACE_SIZE,
            final(self).start_collection == false,
    {
        self.bytes = self.bytes + BRACKET_SIZE + BRACE_SIZE;
        self.start_collection = false;
        Ok(())
    }

    /// Closes a map or struct: one `}`.
    pub fn end_map(&mut self) -> (r: Result<(), Error>)
        requires
            old(self).bytes + BRACE_SIZE <= usize::MAX,
        ensures
            r is Ok,
            final(self).bytes == old(self).bytes + BRACE_SIZE,
            final(self).start_collection == false,
    {
        self.start_collection = false;
        self.bytes = self.bytes + BRACE_SIZE;
        Ok(())
    }

    /// Closes a struct enum variant: the `}` of the field list and the
    /// `}` of the variant wrapper.
    pub fn end_struct_variant(&mut self) -> (r: Result<(), Error>)
        requires
            old(self).bytes + BRACE_SIZE + BRACE_SIZE <= usize::MAX,
        ensures
            r is Ok,
            final(self).bytes == old(self).bytes + BRACE_SIZE + BRACE_SIZE,
            final(self).start_collection == false,
    {
        self.start_collection = false;
        self.bytes = self.bytes + BRACE_SIZE + BRACE_SIZE;
        Ok(())
    }
}

} // verus!
