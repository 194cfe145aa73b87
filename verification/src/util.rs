//! Readings of parameter values and of big- and little-endian integers.
//!
//! A parameter value is read as an integer when it is one, when it is a
//! boolean (1 or 0), or when it is text that spells an `i64`.

use vstd::prelude::*;
use crate::packet::parameters::{ParamModel, ParamValue, RawParameters};
use crate::text::{chars_of, parse_i64_chars, spec_parse_int};

verus! {

/// The integer a JSON number's text stands for, when it is one that fits
/// in `i64` or `u64`; a `u64` above `i64::MAX` wraps into `i64`.
pub open spec fn spec_number_i64(t: Seq<char>) -> Option<i64> {
    match spec_parse_int(t, i64::MIN as int, i64::MAX as int) {
        Some(n) => Some(n as i64),
        None => match spec_parse_int(t, 0, u64::MAX as int) {
            Some(n) => Some(n as i64),
            None => None,
        },
    }
}

/// The integer a parameter value stands for, if any.
pub open spec fn spec_value_i64(v: ParamModel) -> Option<i64> {
    match v {
        ParamModel::Bool(b) => Some(if b { 1i64 } else { 0i64 }),
        ParamModel::Number(t) => spec_number_i64(t),
        ParamModel::Str(t) => match spec_parse_int(t, i64::MIN as int, i64::MAX as int) {
            Some(n) => Some(n as i64),
            None => None,
        },
        _ => None,
    }
}

/// Reads a JSON number's text as [`spec_number_i64`] says.
pub fn number_i64(t: &str) -> (r: Option<i64>)
    ensures
        r == spec_number_i64(t@),
{
    let cs = chars_of(t);
    match parse_i64_chars(&cs) {
        Some(n) => Some(n),
        None => match crate::text::parse_decimal_in_range(&cs, 0, u64::MAX as i128) {
            Some(n) => Some(n as u64 as i64),
            None => None,
        },
    }
}

/// The value as an `i64`, as [`spec_value_i64`] says.
pub fn value_i64(v: &ParamValue) -> (r: Option<i64>)
    ensures
        r == spec_value_i64(v.model()),
{
    match v {
        ParamValue::Bool(b) => Some(if *b { 1 } else { 0 }),
        ParamValue::Number(t) => number_i64(t.as_str()),
        ParamValue::Str(t) => {
            let cs = chars_of(t.as_str());
            parse_i64_chars(&cs)
        },
        _ => None,
    }
}

/// The value as an `i32`: its `i64` reading, truncated to 32 bits.
pub fn value_i32(v: &ParamValue) -> (r: Option<i32>)
    ensures
        r == (match spec_value_i64(v.model()) {
            Some(n) => Some(n as i32),
            None => None,
        }),
{
    match value_i64(v) {
        Some(n) => Some(n as i32),
        None => None,
    }
}

/// The text of a string value.
pub fn value_str(v: &ParamValue) -> (r: Option<String>)
    ensures
        match r {
            Some(t) => v.model() == ParamModel::Str(t@),
            None => !(v.model() is Str),
        },
{
    match v {
        ParamValue::Str(t) => Some(t.clone()),
        _ => None,
    }
}

/// The value under `key` read as an `i64`.
pub open spec fn spec_param_i64(params: Map<u8, ParamValue>, key: u8) -> Option<i64> {
    if params.contains_key(key) {
        spec_value_i64(params[key].model())
    } else {
        None
    }
}

/// The value under `key` read as an `i32`.
pub open spec fn spec_param_i32(params: Map<u8, ParamValue>, key: u8) -> Option<i32> {
    match spec_param_i64(params, key) {
        Some(n) => Some(n as i32),
        None => None,
    }
}

/// The text under `key`, when it is a string.
pub open spec fn spec_param_str(params: Map<u8, ParamValue>, key: u8) -> Option<Seq<char>> {
    if params.contains_key(key) && params[key].model() is Str {
        Some(params[key].model()->Str_0)
    } else {
        None
    }
}

pub fn param_i64(params: &RawParameters, key: u8) -> (r: Option<i64>)
    ensures
        r == spec_param_i64(params.view(), key),
{
    match params.get(key) {
        Some(v) => value_i64(v),
        None => None,
    }
}

pub fn param_i32(params: &RawParameters, key: u8) -> (r: Option<i32>)
    ensures
        r == spec_param_i32(params.view(), key),
{
    match params.get(key) {
        Some(v) => value_i32(v),
        None => None,
    }
}

pub fn param_str(params: &RawParameters, key: u8) -> (r: Option<String>)
    ensures
        match r {
            Some(t) => spec_param_str(params.view(), key) == Some(t@),
            None => spec_param_str(params.view(), key) is None,
        },
{
    match params.get(key) {
        Some(v) => value_str(v),
        None => None,
    }
}

/// The integer readings of the elements that have one, in order.
pub open spec fn ints_of(items: Seq<ParamModel>) -> Seq<i64>
    decreases items.len(),
{
    if items.len() == 0 {
        Seq::empty()
    } else {
        match spec_value_i64(items.last()) {
            Some(n) => ints_of(items.drop_last()).push(n),
            None => ints_of(items.drop_last()),
        }
    }
}

/// The texts of the string elements, in order.
pub open spec fn strs_of(items: Seq<ParamModel>) -> Seq<Seq<char>>
    decreases items.len(),
{
    if items.len() == 0 {
        Seq::empty()
    } else if items.last() is Str {
        strs_of(items.drop_last()).push(items.last()->Str_0)
    } else {
        strs_of(items.drop_last())
    }
}

/// The integers in the array under `key`; empty when it is not an array.
pub open spec fn spec_i64_array(params: Map<u8, ParamValue>, key: u8) -> Seq<i64> {
    if params.contains_key(key) && params[key].model() is Array {
        ints_of(params[key].model()->Array_0)
    } else {
        Seq::empty()
    }
}

/// The strings in the array under `key`; empty when it is not an array.
pub open spec fn spec_string_array(params: Map<u8, ParamValue>, key: u8) -> Seq<Seq<char>> {
    if params.contains_key(key) && params[key].model() is Array {
        strs_of(params[key].model()->Array_0)
    } else {
        Seq::empty()
    }
}

pub fn i64_array(params: &RawParameters, key: u8) -> (r: Vec<i64>)
    ensures
        r@ == spec_i64_array(params.view(), key),
{
    let mut out: Vec<i64> = Vec::new();
    match params.get(key) {
        Some(ParamValue::Array(items)) => {
            let ghost ms = params.view()[key].model()->Array_0;
            let mut i: usize = 0;
            while i < items.len()
                invariant
                    i <= items.len(),
                    ms.len() == items.len(),
                    forall|j: int| 0 <= j < items.len() ==> #[trigger] ms[j] == items@[j].model(),
                    out@ == ints_of(ms.take(i as int)),
                decreases items.len() - i,
            {
                proof {
                    assert(ms.take(i + 1).drop_last() =~= ms.take(i as int));
                    assert(ms.take(i + 1).last() == ms[i as int]);
                }
                match value_i64(&items[i]) {
                    Some(n) => out.push(n),
                    None => {},
                }
                i = i + 1;
            }
            proof {
                assert(ms.take(items.len() as int) =~= ms);
            }
        },
        _ => {},
    }
    out
}

pub fn string_array(params: &RawParameters, key: u8) -> (r: Vec<String>)
    ensures
        r.len() == spec_string_array(params.view(), key).len(),
        forall|j: int| 0 <= j < r.len() ==> (#[trigger] r@[j])@ == spec_string_array(params.view(), key)[j],
{
    let mut out: Vec<String> = Vec::new();
    match params.get(key) {
        Some(ParamValue::Array(items)) => {
            let ghost ms = params.view()[key].model()->Array_0;
            let mut i: usize = 0;
            while i < items.len()
                invariant
                    i <= items.len(),
                    ms.len() == items.len(),
                    forall|j: int| 0 <= j < items.len() ==> #[trigger] ms[j] == items@[j].model(),
                    out.len() == strs_of(ms.take(i as int)).len(),
                    forall|j: int| 0 <= j < out.len() ==> (#[trigger] out@[j])@ == strs_of(ms.take(i as int))[j],
                decreases items.len() - i,
            {
                proof {
                    assert(ms.take(i + 1).drop_last() =~= ms.take(i as int));
                    assert(ms.take(i + 1).last() == ms[i as int]);
                }
                match &items[i] {
                    ParamValue::Str(t) => out.push(t.clone()),
                    _ => {},
                }
                i = i + 1;
            }
            proof {
                assert(ms.take(items.len() as int) =~= ms);
            }
        },
        _ => {},
    }
    out
}

/// The low 16 bits of a value, read as a signed short and widened.
pub fn to_signed_short(value: i64) -> (r: i32)
    ensures
        r == (value as i16) as i32,
{
    (value as i16) as i32
}

/// The .NET tick count at the Unix epoch (1970-01-01T00:00:00Z).
pub const DOTNET_EPOCH_TICKS: i64 = 621_355_968_000_000_000;

/// Milliseconds since the Unix epoch for a .NET tick count (100 ns units
/// since 0001-01-01). Values below the epoch tick count are taken to be
/// Unix milliseconds already and are returned unchanged.
pub open spec fn spec_ticks_to_millis(ticks: i64) -> i64 {
    if ticks >= DOTNET_EPOCH_TICKS {
        ((ticks - DOTNET_EPOCH_TICKS) / 10_000) as i64
    } else {
        ticks
    }
}

pub fn dotnet_ticks_to_unix_millis(ticks: i64) -> (r: i64)
    ensures
        r == spec_ticks_to_millis(ticks),
{
    if ticks >= DOTNET_EPOCH_TICKS {
        (ticks - DOTNET_EPOCH_TICKS) / 10_000
    } else {
        ticks
    }
}

/// Big-endian reading of four bytes.
pub open spec fn spec_u32_be(s: Seq<u8>, at: int) -> u32 {
    (s[at] as int * 0x100_0000 + s[at + 1] as int * 0x1_0000 + s[at + 2] as int * 0x100
        + s[at + 3] as int) as u32
}

/// Little-endian reading of four bytes.
pub open spec fn spec_u32_le(s: Seq<u8>, at: int) -> u32 {
    (s[at + 3] as int * 0x100_0000 + s[at + 2] as int * 0x1_0000 + s[at + 1] as int * 0x100
        + s[at] as int) as u32
}

/// Big-endian reading of two bytes.
pub open spec fn spec_u16_be(s: Seq<u8>, at: int) -> u16 {
    (s[at] as int * 0x100 + s[at + 1] as int) as u16
}

/// Little-endian reading of two bytes.
pub open spec fn spec_u16_le(s: Seq<u8>, at: int) -> u16 {
    (s[at + 1] as int * 0x100 + s[at] as int) as u16
}

pub fn read_u32_be(data: &[u8], at: usize) -> (r: u32)
    requires
        at + 4 <= data.len(),
    ensures
        r == spec_u32_be(data@, at as int),
{
    (data[at] as u32) * 0x100_0000 + (data[at + 1] as u32) * 0x1_0000 + (data[at + 2] as u32) * 0x100
        + (data[at + 3] as u32)
}

/// Big-endian signed 32-bit reading of four bytes.
pub fn read_i32_be(data: &[u8], at: usize) -> (r: i32)
    requires
        at + 4 <= data.len(),
    ensures
        r == spec_u32_be(data@, at as int) as i32,
{
    read_u32_be(data, at) as i32
}

pub fn read_u16_be(data: &[u8], at: usize) -> (r: u16)
    requires
        at + 2 <= data.len(),
    ensures
        r == spec_u16_be(data@, at as int),
{
    (data[at] as u16) * 0x100 + (data[at + 1] as u16)
}

/// Four bytes in the given byte order.
pub open spec fn spec_u32(s: Seq<u8>, at: int, little: bool) -> u32 {
    if little {
        spec_u32_le(s, at)
    } else {
        spec_u32_be(s, at)
    }
}

/// Two bytes in the given byte order.
pub open spec fn spec_u16(s: Seq<u8>, at: int, little: bool) -> u16 {
    if little {
        spec_u16_le(s, at)
    } else {
        spec_u16_be(s, at)
    }
}

pub fn read_u32(data: &[u8], at: usize, little: bool) -> (r: u32)
    requires
        at + 4 <= data.len(),
    ensures
        r == spec_u32(data@, at as int, little),
{
    if little {
        (data[at + 3] as u32) * 0x100_0000 + (data[at + 2] as u32) * 0x1_0000 + (data[at + 1] as u32)
            * 0x100 + (data[at] as u32)
    } else {
        read_u32_be(data, at)
    }
}

pub fn read_u16(data: &[u8], at: usize, little: bool) -> (r: u16)
    requires
        at + 2 <= data.len(),
    ensures
        r == spec_u16(data@, at as int, little),
{
    if little {
        (data[at + 1] as u16) * 0x100 + (data[at] as u16)
    } else {
        read_u16_be(data, at)
    }
}

} // verus!
