//! The wire value model: a structured value as the backend returns it
//! (object / array / string / integer / float / bool / bytes / null),
//! together with the total, default-returning accessors the payload
//! parsers are built from.
//!
//! Objects are held as a list of key/value pairs; a key is looked up by
//! its first occurrence. Floating-point numbers are carried as their
//! value truncated toward zero and saturated to the `i64` range, which
//! is all the engine ever reads of a float; the shell that receives a
//! raw float performs that cast before handing the value in.

use vstd::arithmetic::div_mod::{lemma_fundamental_div_mod, lemma_fundamental_div_mod_converse};
use vstd::prelude::*;

use crate::text::str_eq;

verus! {

/// A structured value received from the backend over the wire.
#[derive(Debug)]
pub enum WireValue {
    Null,
    Bool(bool),
    Int64(i64),
    /// A floating-point number, truncated toward zero and saturated to
    /// the `i64` range.
    Float64(i64),
    Text(String),
    Bytes(Vec<u8>),
    Array(Vec<WireValue>),
    Object(Vec<(String, WireValue)>),
}

/// The value under `key` in an object's field list: the first pair whose
/// key has these characters, if any.
pub open spec fn lookup_field(fields: Seq<(String, WireValue)>, key: Seq<char>) -> Option<
    WireValue,
>
    decreases fields.len(),
{
    if fields.len() == 0 {
        None
    } else if fields[0].0@ == key {
        Some(fields[0].1)
    } else {
        lookup_field(fields.skip(1), key)
    }
}

/// The string under `key`, if the field is present and is a string.
pub open spec fn field_str(fields: Seq<(String, WireValue)>, key: Seq<char>) -> Option<Seq<char>> {
    match lookup_field(fields, key) {
        Some(WireValue::Text(s)) => Some(s@),
        _ => None,
    }
}

/// The object under `key`, if the field is present and is an object.
pub open spec fn field_obj(fields: Seq<(String, WireValue)>, key: Seq<char>) -> Option<
    Seq<(String, WireValue)>,
> {
    match lookup_field(fields, key) {
        Some(WireValue::Object(o)) => Some(o@),
        _ => None,
    }
}

/// The array under `key`, if the field is present and is an array.
pub open spec fn field_arr(fields: Seq<(String, WireValue)>, key: Seq<char>) -> Option<
    Seq<WireValue>,
> {
    match lookup_field(fields, key) {
        Some(WireValue::Array(a)) => Some(a@),
        _ => None,
    }
}

/// The integer under `key`: an integer field is taken as it is, a float
/// field as its truncated value.
pub open spec fn field_i64(fields: Seq<(String, WireValue)>, key: Seq<char>) -> Option<i64> {
    match lookup_field(fields, key) {
        Some(WireValue::Int64(n)) => Some(n),
        Some(WireValue::Float64(n)) => Some(n),
        _ => None,
    }
}

/// An `i64` reduced to 32 bits, two's-complement style: the value modulo
/// 2^32.
pub open spec fn wrap_u32(n: i64) -> u32 {
    (((n as int) % 0x1_0000_0000) as u32)
}

/// An `i64` reduced to 64 unsigned bits, two's-complement style: the
/// value modulo 2^64.
pub open spec fn wrap_u64(n: i64) -> u64 {
    (((n as int) % 0x1_0000_0000_0000_0000) as u64)
}

/// An `i64` clamped to the `u32` range.
pub open spec fn clamp_u32(n: i64) -> u32 {
    if n < 0 {
        0u32
    } else if n > 0xFFFF_FFFF {
        0xFFFF_FFFFu32
    } else {
        n as u32
    }
}

/// The `u32` a numeric wire value yields: an integer is reduced to the
/// low 32 bits, a float (already truncated toward zero) is clamped to
/// the `u32` range, as a direct float-to-`u32` cast would do; any other
/// value yields nothing.
pub open spec fn u32_of(v: WireValue) -> Option<u32> {
    match v {
        WireValue::Int64(n) => Some(wrap_u32(n)),
        WireValue::Float64(n) => Some(clamp_u32(n)),
        _ => None,
    }
}

/// The embedded backend error message: the string under `"error"` of an
/// object response, if any.
pub open spec fn error_text(v: WireValue) -> Option<Seq<char>> {
    match v {
        WireValue::Object(fields) => field_str(fields@, "error"@),
        _ => None,
    }
}

/// Looks a key up in an object's field list (first occurrence wins).
pub fn get_field<'a>(obj: &'a Vec<(String, WireValue)>, key: &str) -> (r: Option<&'a WireValue>)
    ensures
        match r {
            Some(v) => lookup_field(obj@, key@) == Some(*v),
            None => lookup_field(obj@, key@) is None,
        },
{
    let n = obj.len();
    let mut i: usize = 0;
    proof {
        assert(obj@.skip(0) =~= obj@);
    }
    while i < n
        invariant
            n == obj@.len(),
            i <= n,
            lookup_field(obj@, key@) == lookup_field(obj@.skip(i as int), key@),
        decreases n - i,
    {
        let pair = &obj[i];
        proof {
            assert(obj@.skip(i as int)[0] == obj@[i as int]);
        }
        if str_eq(pair.0.as_str(), key) {
            return Some(&pair.1);
        }
        proof {
            assert(obj@.skip(i as int).skip(1) =~= obj@.skip(i as int + 1));
        }
        i += 1;
    }
    None
}

/// The string under `key` of an object, cloned out, if present.
pub fn get_str(obj: &Vec<(String, WireValue)>, key: &str) -> (r: Option<String>)
    ensures
        match r {
            Some(s) => field_str(obj@, key@) == Some(s@),
            None => field_str(obj@, key@) is None,
        },
{
    match get_field(obj, key) {
        Some(WireValue::Text(s)) => Some(s.clone()),
        _ => None,
    }
}

/// The object under `key` of an object, if present.
pub fn get_obj<'a>(obj: &'a Vec<(String, WireValue)>, key: &str) -> (r: Option<
    &'a Vec<(String, WireValue)>,
>)
    ensures
        match r {
            Some(o) => field_obj(obj@, key@) == Some(o@),
            None => field_obj(obj@, key@) is None,
        },
{
    match get_field(obj, key) {
        Some(WireValue::Object(o)) => Some(o),
        _ => None,
    }
}

/// The array under `key` of an object, if present.
pub fn get_array<'a>(obj: &'a Vec<(String, WireValue)>, key: &str) -> (r: Option<&'a Vec<WireValue>>)
    ensures
        match r {
            Some(a) => field_arr(obj@, key@) == Some(a@),
            None => field_arr(obj@, key@) is None,
        },
{
    match get_field(obj, key) {
        Some(WireValue::Array(a)) => Some(a),
        _ => None,
    }
}

/// The integer under `key` of an object, accepting integer or float
/// encodings, if present.
pub fn get_i64(obj: &Vec<(String, WireValue)>, key: &str) -> (r: Option<i64>)
    ensures
        r == field_i64(obj@, key@),
{
    match get_field(obj, key) {
        Some(WireValue::Int64(n)) => Some(*n),
        Some(WireValue::Float64(n)) => Some(*n),
        _ => None,
    }
}

/// Reduces an `i64` to its low 32 bits.
pub fn wrap_to_u32(n: i64) -> (r: u32)
    ensures
        r == wrap_u32(n),
{
    if n >= 0 {
        ((n as u64) % 0x1_0000_0000u64) as u32
    } else {
        let k: i64 = -(n + 1);
        let km: u64 = (k as u64) % 0x1_0000_0000u64;
        let r = (0xFFFF_FFFFu64 - km) as u32;
        proof {
            let m = 0x1_0000_0000int;
            let ni = n as int;
            let ki = k as int;
            lemma_fundamental_div_mod(ki, m);
            let q = ki / m;
            let r0 = ki % m;
            assert(ni == (-q - 1) * m + (m - 1 - r0)) by {
                assert(ki == m * q + r0);
            };
            lemma_fundamental_div_mod_converse(ni, m, -q - 1, m - 1 - r0);
        }
        r
    }
}

/// Reduces an `i64` to 64 unsigned bits.
pub fn wrap_to_u64(n: i64) -> (r: u64)
    ensures
        r == wrap_u64(n),
{
    if n >= 0 {
        let r = n as u64;
        proof {
            let m = 0x1_0000_0000_0000_0000int;
            lemma_fundamental_div_mod_converse(n as int, m, 0, n as int);
        }
        r
    } else {
        let k: i64 = -(n + 1);
        let r = 0xFFFF_FFFF_FFFF_FFFFu64 - (k as u64);
        proof {
            let m = 0x1_0000_0000_0000_0000int;
            let ni = n as int;
            lemma_fundamental_div_mod_converse(ni, m, -1, m + ni);
        }
        r
    }
}

/// Clamps an `i64` to the `u32` range.
pub fn clamp_to_u32(n: i64) -> (r: u32)
    ensures
        r == clamp_u32(n),
{
    if n < 0 {
        0
    } else if n > 0xFFFF_FFFF {
        0xFFFF_FFFF
    } else {
        n as u32
    }
}

/// The `u32` a numeric wire value yields, accepting integer or float
/// encodings and normalizing to 32 bits.
pub fn value_to_u32(v: &WireValue) -> (r: Option<u32>)
    ensures
        r == u32_of(*v),
{
    match v {
        WireValue::Int64(n) => Some(wrap_to_u32(*n)),
        WireValue::Float64(n) => Some(clamp_to_u32(*n)),
        _ => None,
    }
}

/// The embedded backend error message of a response, if any.
pub fn get_error_string(val: &WireValue) -> (r: Option<String>)
    ensures
        match r {
            Some(s) => error_text(*val) == Some(s@),
            None => error_text(*val) is None,
        },
{
    match val {
        WireValue::Object(obj) => get_str(obj, "error"),
        _ => None,
    }
}

} // verus!
