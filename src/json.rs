//! A JSON document model that the normalization logic reads.
use vstd::prelude::*;
use vstd::arithmetic::power2::pow2;
use vstd::bits::lemma_u64_shr_is_div;

verus! {

/// A JSON number as it was decoded: a non-negative integer, a negative
/// integer, or any other number as the bit pattern of its IEEE-754 binary64
/// value.
#[derive(Clone, Copy, Debug, PartialEq, Eq, Structural)]
pub enum JsonNumber {
    PosInt(u64),
    NegInt(i64),
    Float(u64),
}

/// A decoded JSON document. An object keeps its members in order, keys unique.
#[derive(Debug)]
pub enum JsonValue {
    Null,
    Bool(bool),
    Number(JsonNumber),
    Text(String),
    Array(Vec<JsonValue>),
    Object(Vec<(String, JsonValue)>),
}

/// The value of the first member named `key`, if any.
pub open spec fn member(entries: Seq<(String, JsonValue)>, key: Seq<char>) -> Option<JsonValue>
    decreases entries.len(),
{
    if entries.len() == 0 {
        None
    } else if entries[0].0@ == key {
        Some(entries[0].1)
    } else {
        member(entries.drop_first(), key)
    }
}

/// The member `key` of `v` when `v` is an object that has one.
pub open spec fn lookup(v: Option<JsonValue>, key: Seq<char>) -> Option<JsonValue> {
    match v {
        Some(JsonValue::Object(entries)) => member(entries@, key),
        _ => None,
    }
}

pub open spec fn spec_as_u64(v: Option<JsonValue>) -> Option<u64> {
    match v {
        Some(JsonValue::Number(JsonNumber::PosInt(n))) => Some(n),
        _ => None,
    }
}

pub open spec fn spec_as_number(v: Option<JsonValue>) -> Option<JsonNumber> {
    match v {
        Some(JsonValue::Number(n)) => Some(n),
        _ => None,
    }
}

pub open spec fn spec_as_string(v: Option<JsonValue>) -> Option<String> {
    match v {
        Some(JsonValue::Text(s)) => Some(s),
        _ => None,
    }
}

/// Bits of a binary64 pattern.
pub open spec fn float_exponent(bits: u64) -> int {
    ((bits / 0x10_0000_0000_0000) % 0x800) as int
}

pub open spec fn float_fraction(bits: u64) -> int {
    (bits % 0x10_0000_0000_0000) as int
}

pub open spec fn float_negative(bits: u64) -> bool {
    bits >= 0x8000_0000_0000_0000
}

/// A number converted to `u16` the way a float-to-integer `as` cast does:
/// truncated toward zero, negative values and NaN give 0, values past the
/// range give `u16::MAX`.
pub open spec fn truncate_to_u16(n: JsonNumber) -> u16 {
    match n {
        JsonNumber::PosInt(v) => if v > 0xFFFF { 0xFFFF } else { v as u16 },
        JsonNumber::NegInt(_) => 0,
        JsonNumber::Float(bits) => {
            let e = float_exponent(bits);
            let f = float_fraction(bits);
            if e == 0x7FF && f != 0 {
                0
            } else if float_negative(bits) {
                0
            } else if e < 1023 {
                0
            } else if e >= 1023 + 16 {
                0xFFFF
            } else {
                ((0x10_0000_0000_0000 + f) / pow2((52 - (e - 1023)) as nat) as int) as u16
            }
        },
    }
}

/// The value behind an optional reference.
pub open spec fn deref(v: Option<&JsonValue>) -> Option<JsonValue> {
    match v {
        Some(x) => Some(*x),
        None => None,
    }
}

/// Truncates a number to `u16` as `truncate_to_u16` describes.
pub fn number_to_u16(n: JsonNumber) -> (r: u16)
    ensures
        r == truncate_to_u16(n),
{
    match n {
        JsonNumber::PosInt(v) => if v > 0xFFFF { 0xFFFF } else { v as u16 },
        JsonNumber::NegInt(_) => 0,
        JsonNumber::Float(bits) => {
            let e: u64 = (bits / 0x10_0000_0000_0000) % 0x800;
            let f: u64 = bits % 0x10_0000_0000_0000;
            if e == 0x7FF && f != 0 {
                0
            } else if bits >= 0x8000_0000_0000_0000 {
                0
            } else if e < 1023 {
                0
            } else if e >= 1023 + 16 {
                0xFFFF
            } else {
                let m: u64 = 0x10_0000_0000_0000 + f;
                let shift: u64 = 52 - (e - 1023);
                proof {
                    lemma_u64_shr_is_div(m, shift);
                }
                (m >> shift) as u16
            }
        },
    }
}

/// The member `key` of `v`, when `v` is an object that has one.
pub fn field<'a>(v: Option<&'a JsonValue>, key: &String) -> (r: Option<&'a JsonValue>)
    ensures
        deref(r) == lookup(deref(v), key@),
{
    match v {
        Some(x) => x.get(key),
        None => None,
    }
}

/// The value as a non-negative integer, if it is one.
pub fn as_u64(v: Option<&JsonValue>) -> (r: Option<u64>)
    ensures
        r == spec_as_u64(deref(v)),
{
    match v {
        Some(JsonValue::Number(JsonNumber::PosInt(n))) => Some(*n),
        _ => None,
    }
}

/// The value as a number, if it is one.
pub fn as_number(v: Option<&JsonValue>) -> (r: Option<JsonNumber>)
    ensures
        r == spec_as_number(deref(v)),
{
    match v {
        Some(JsonValue::Number(n)) => Some(*n),
        _ => None,
    }
}

/// The value as text, if it is a string.
pub fn as_text(v: Option<&JsonValue>) -> (r: Option<String>)
    ensures
        r == spec_as_string(deref(v)),
{
    match v {
        Some(JsonValue::Text(t)) => Some(t.clone()),
        _ => None,
    }
}

impl JsonValue {
    /// The member named `key` when this value is an object.
    pub fn get(&self, key: &String) -> (r: Option<&JsonValue>)
        ensures
            deref(r) == lookup(Some(*self), key@),
    {
        match self {
            JsonValue::Object(entries) => {
                let mut i: usize = 0;
                assert(entries@.subrange(0, entries@.len() as int) =~= entries@);
                while i < entries.len()
                    invariant
                        i <= entries@.len(),
                        *self == JsonValue::Object(*entries),
                        member(entries@, key@) == member(entries@.subrange(i as int, entries@.len() as int), key@),
                    decreases entries@.len() - i,
                {
                    let ghost rest = entries@.subrange(i as int, entries@.len() as int);
                    assert(rest.drop_first() =~= entries@.subrange(i + 1, entries@.len() as int));
                    assert(rest[0] == entries@[i as int]);
                    if entries[i].0 == *key {
                        assert(member(rest, key@) == Some(rest[0].1));
                        return Some(&entries[i].1);
                    }
                    i = i + 1;
                }
                None
            },
            _ => None,
        }
    }
}

} // verus!
