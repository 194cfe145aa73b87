//! Globally unique identifiers in the .NET layout, read from hyphenated
//! text or from Photon's little-endian byte dump.

use vstd::prelude::*;
use crate::packet::parameters::{ParamModel, ParamValue};
use crate::text::{chars_of, string_from_chars};

verus! {

#[derive(Clone, Copy, Debug, PartialEq, Eq, Hash)]
pub struct Guid {
    pub data1: u32,
    pub data2: u16,
    pub data3: u16,
    pub data4: [u8; 8],
}

pub open spec fn is_hex(c: char) -> bool {
    ('0' <= c && c <= '9') || ('a' <= c && c <= 'f') || ('A' <= c && c <= 'F')
}

pub open spec fn hex_value(c: char) -> int {
    if '0' <= c && c <= '9' {
        c as int - '0' as int
    } else if 'a' <= c && c <= 'f' {
        c as int - 'a' as int + 10
    } else {
        c as int - 'A' as int + 10
    }
}

/// The number a string of hex digits spells, most significant first.
pub open spec fn hex_number(s: Seq<char>) -> int
    decreases s.len(),
{
    if s.len() == 0 {
        0
    } else {
        hex_number(s.drop_last()) * 16 + hex_value(s.last())
    }
}

pub open spec fn all_hex(s: Seq<char>) -> bool {
    forall|i: int| 0 <= i < s.len() ==> is_hex(#[trigger] s[i])
}

pub open spec fn is_ascii_white(c: char) -> bool {
    c == ' ' || c == '\t' || c == '\n' || c == '\x0C' || c == '\r'
}

/// The characters that remain once `drop` ones are taken out.
pub open spec fn without(s: Seq<char>, drop: spec_fn(char) -> bool) -> Seq<char>
    decreases s.len(),
{
    if s.len() == 0 {
        Seq::empty()
    } else if drop(s.last()) {
        without(s.drop_last(), drop)
    } else {
        without(s.drop_last(), drop).push(s.last())
    }
}

pub open spec fn is_dash(c: char) -> bool {
    c == '-'
}

pub open spec fn is_dash_or_white(c: char) -> bool {
    c == '-' || is_ascii_white(c)
}

/// The hex byte at position `i` (two digits) of a digit string.
pub open spec fn hex_byte(h: Seq<char>, i: int) -> int {
    hex_number(h.subrange(2 * i, 2 * i + 2))
}

/// The identifier whose fields are the big-endian hex groups of 32 digits:
/// 8 for `data1`, 4 each for `data2` and `data3`, then 8 bytes.
pub open spec fn guid_from_groups(g: Guid, h: Seq<char>) -> bool {
    &&& g.data1 as int == hex_number(h.subrange(0, 8))
    &&& g.data2 as int == hex_number(h.subrange(8, 12))
    &&& g.data3 as int == hex_number(h.subrange(12, 16))
    &&& forall|k: int| 0 <= k < 8 ==> #[trigger] g.data4@[k] as int == hex_byte(h, 8 + k)
}

/// The identifier whose 16 bytes, in order, are the 32 hex digits; the
/// first three fields are little-endian.
pub open spec fn guid_from_bytes(g: Guid, h: Seq<char>) -> bool {
    &&& g.data1 as int == hex_byte(h, 0) + hex_byte(h, 1) * 0x100 + hex_byte(h, 2) * 0x1_0000
        + hex_byte(h, 3) * 0x100_0000
    &&& g.data2 as int == hex_byte(h, 4) + hex_byte(h, 5) * 0x100
    &&& g.data3 as int == hex_byte(h, 6) + hex_byte(h, 7) * 0x100
    &&& forall|k: int| 0 <= k < 8 ==> #[trigger] g.data4@[k] as int == hex_byte(h, 8 + k)
}

pub open spec fn pow16(n: nat) -> int
    decreases n,
{
    if n == 0 {
        1
    } else {
        16 * pow16((n - 1) as nat)
    }
}

proof fn lemma_hex_number_bound(s: Seq<char>)
    requires
        all_hex(s),
    ensures
        0 <= hex_number(s) < pow16(s.len()),
    decreases s.len(),
{
    if s.len() > 0 {
        assert(all_hex(s.drop_last())) by {
            assert forall|i: int| 0 <= i < s.drop_last().len() implies is_hex(
                #[trigger] s.drop_last()[i],
            ) by {
                assert(s.drop_last()[i] == s[i]);
            }
        }
        lemma_hex_number_bound(s.drop_last());
        assert(is_hex(s[s.len() - 1]));
    }
}

fn hex_digit(c: char) -> (r: u32)
    requires
        is_hex(c),
    ensures
        r as int == hex_value(c),
        r < 16,
{
    if '0' <= c && c <= '9' {
        c as u32 - '0' as u32
    } else if 'a' <= c && c <= 'f' {
        c as u32 - 'a' as u32 + 10
    } else {
        c as u32 - 'A' as u32 + 10
    }
}

/// The number spelled by `len` (at most 8) hex digits starting at `start`.
fn hex_run(h: &[char], start: usize, len: usize) -> (r: u32)
    requires
        start + len <= h.len(),
        len <= 8,
        all_hex(h@),
    ensures
        r as int == hex_number(h@.subrange(start as int, start + len)),
{
    let mut acc: u64 = 0;
    let mut i: usize = 0;
    while i < len
        invariant
            i <= len <= 8,
            start + len <= h.len(),
            all_hex(h@),
            acc as int == hex_number(h@.subrange(start as int, start + i)),
            acc < pow16(i as nat),
            pow16(i as nat) <= 0x1_0000_0000,
        decreases len - i,
    {
        let d = hex_digit(h[start + i]);
        proof {
            let sub = h@.subrange(start as int, start + i + 1);
            assert(sub.drop_last() =~= h@.subrange(start as int, start + i));
            assert(sub.last() == h@[start + i]);
            assert(pow16((i + 1) as nat) == 16 * pow16(i as nat));
            if i + 1 < 8 {
                assert(pow16(8) == 0x1_0000_0000) by {
                    reveal_with_fuel(pow16, 9);
                }
                lemma_pow16_mono((i + 1) as nat, 8);
            } else {
                assert(pow16(8) == 0x1_0000_0000) by {
                    reveal_with_fuel(pow16, 9);
                }
            }
        }
        acc = acc * 16 + d as u64;
        i = i + 1;
    }
    acc as u32
}

proof fn lemma_pow16_mono(a: nat, b: nat)
    requires
        a <= b,
    ensures
        pow16(a) <= pow16(b),
    decreases b,
{
    if a < b {
        lemma_pow16_mono(a, (b - 1) as nat);
        lemma_pow16_pos((b - 1) as nat);
    }
}

proof fn lemma_pow16_pos(n: nat)
    ensures
        pow16(n) >= 1,
    decreases n,
{
    if n > 0 {
        lemma_pow16_pos((n - 1) as nat);
    }
}

/// Keeps the characters of `cs` that `drop` does not select.
fn strip_chars(cs: &[char], also_white: bool) -> (r: Vec<char>)
    ensures
        r@ == without(cs@, if also_white { |c: char| is_dash_or_white(c) } else { |c: char| is_dash(c) }),
{
    let ghost drop = if also_white { |c: char| is_dash_or_white(c) } else { |c: char| is_dash(c) };
    let mut r: Vec<char> = Vec::new();
    let mut i: usize = 0;
    while i < cs.len()
        invariant
            i <= cs.len(),
            drop == (if also_white { |c: char| is_dash_or_white(c) } else { |c: char| is_dash(c) }),
            r@ == without(cs@.take(i as int), drop),
        decreases cs.len() - i,
    {
        let c = cs[i];
        let dropped = c == '-' || (also_white && (c == ' ' || c == '\t' || c == '\n' || c == '\x0C'
            || c == '\r'));
        proof {
            assert(cs@.take(i + 1).drop_last() =~= cs@.take(i as int));
            assert(cs@.take(i + 1).last() == c);
            assert(dropped == drop(c));
        }
        if !dropped {
            r.push(c);
        }
        i = i + 1;
    }
    assert(cs@.take(cs.len() as int) =~= cs@);
    r
}

fn check_hex(h: &[char]) -> (r: bool)
    ensures
        r == all_hex(h@),
{
    let mut i: usize = 0;
    while i < h.len()
        invariant
            i <= h.len(),
            forall|j: int| 0 <= j < i ==> is_hex(#[trigger] h@[j]),
        decreases h.len() - i,
    {
        let c = h[i];
        if !(('0' <= c && c <= '9') || ('a' <= c && c <= 'f') || ('A' <= c && c <= 'F')) {
            assert(!is_hex(h@[i as int]));
            return false;
        }
        i = i + 1;
    }
    true
}

/// The byte at position `i` of an all-hex digit string.
fn byte_at(h: &[char], i: usize) -> (r: u8)
    requires
        2 * i + 2 <= h.len(),
        all_hex(h@),
    ensures
        r as int == hex_byte(h@, i as int),
{
    proof {
        let sub = h@.subrange(2 * i, 2 * i + 2);
        assert(all_hex(sub)) by {
            assert forall|j: int| 0 <= j < sub.len() implies is_hex(#[trigger] sub[j]) by {
                assert(sub[j] == h@[2 * i + j]);
            }
        }
        lemma_hex_number_bound(sub);
        assert(pow16(2) == 256) by {
            reveal_with_fuel(pow16, 3);
        }
    }
    hex_run(h, 2 * i, 2) as u8
}

/// What reading `text` as hyphenated hex gives, as [`Guid::from_str`] does.
pub open spec fn read_groups(r: Option<Guid>, text: Seq<char>) -> bool {
    let h = without(text, |c: char| is_dash(c));
    match r {
        Some(g) => h.len() == 32 && all_hex(h) && guid_from_groups(g, h),
        None => !(h.len() == 32 && all_hex(h)),
    }
}

/// What reading `text` as a byte dump gives, as [`Guid::from_photon_data_hex`] does.
pub open spec fn read_bytes(r: Option<Guid>, text: Seq<char>) -> bool {
    let h = without(text, |c: char| is_dash_or_white(c));
    match r {
        Some(g) => h.len() == 32 && all_hex(h) && guid_from_bytes(g, h),
        None => !(h.len() == 32 && all_hex(h)),
    }
}

/// The value of the last field named `name` of an object.
pub open spec fn object_field(fields: Seq<(Seq<char>, ParamModel)>, name: Seq<char>) -> Option<ParamModel>
    decreases fields.len(),
{
    if fields.len() == 0 {
        None
    } else if fields.last().0 == name {
        Some(fields.last().1)
    } else {
        object_field(fields.drop_last(), name)
    }
}

/// Finds the last field of an object with the given name.
pub fn find_field<'a>(fields: &'a Vec<(String, ParamValue)>, name: &str) -> (r: Option<&'a ParamValue>)
    ensures
        ({
            let fs = Seq::new(fields.len() as nat, |i: int| (fields@[i].0@, fields@[i].1.model()));
            match r {
                Some(v) => object_field(fs, name@) == Some(v.model()),
                None => object_field(fs, name@) is None,
            }
        }),
{
    let ghost fs = Seq::new(fields.len() as nat, |i: int| (fields@[i].0@, fields@[i].1.model()));
    let mut i: usize = fields.len();
    assert(fs.take(i as int) =~= fs);
    while i > 0
        invariant
            i <= fields.len(),
            fs == Seq::new(fields.len() as nat, |i: int| (fields@[i].0@, fields@[i].1.model())),
            object_field(fs, name@) == object_field(fs.take(i as int), name@),
        decreases i,
    {
        proof {
            assert(fs.take(i as int).drop_last() =~= fs.take(i - 1));
        }
        if crate::text::str_eq(fields[i - 1].0.as_str(), name) {
            return Some(&fields[i - 1].1);
        }
        i = i - 1;
    }
    proof {
        assert(fs.take(0) =~= Seq::<(Seq<char>, ParamModel)>::empty());
    }
    None
}

impl Guid {
    /// Reads an identifier from a parameter: a string is hyphenated hex, an
    /// object carries a `data_hex` byte dump; anything else has none.
    pub fn from_value(value: &ParamValue) -> (r: Option<Guid>)
        ensures
            match value.model() {
                ParamModel::Str(t) => read_groups(r, t),
                ParamModel::Object(fs) => match object_field(fs, "data_hex"@) {
                    Some(ParamModel::Str(t)) => read_bytes(r, t),
                    _ => r is None,
                },
                _ => r is None,
            },
    {
        match value {
            ParamValue::Str(t) => Guid::from_str(t.as_str()),
            ParamValue::Object(fields) => {
                proof {
                    let fs = Seq::new(fields.len() as nat, |i: int| (fields@[i].0@, fields@[i].1.model()));
                    assert(value.model()->Object_0 =~= fs);
                }
                match find_field(fields, "data_hex") {
                    Some(ParamValue::Str(t)) => Guid::from_photon_data_hex(t.as_str()),
                    _ => None,
                }
            },
            _ => None,
        }
    }

    /// Reads hyphenated (or plain) hex text: with the dashes taken out there
    /// must be exactly 32 hex digits, read as [`guid_from_groups`] says.
    pub fn from_str(value: &str) -> (r: Option<Guid>)
        ensures
            read_groups(r, value@),
    {
        let cs = chars_of(value);
        let h = strip_chars(&cs, false);
        if h.len() != 32 || !check_hex(&h) {
            return None;
        }
        let data1 = hex_run(&h, 0, 8);
        let data2 = hex_run(&h, 8, 4);
        let data3 = hex_run(&h, 12, 4);
        proof {
            let s2 = h@.subrange(8, 12);
            let s3 = h@.subrange(12, 16);
            assert(all_hex(s2)) by {
                assert forall|j: int| 0 <= j < s2.len() implies is_hex(#[trigger] s2[j]) by {
                    assert(s2[j] == h@[8 + j]);
                }
            }
            assert(all_hex(s3)) by {
                assert forall|j: int| 0 <= j < s3.len() implies is_hex(#[trigger] s3[j]) by {
                    assert(s3[j] == h@[12 + j]);
                }
            }
            lemma_hex_number_bound(s2);
            lemma_hex_number_bound(s3);
            assert(pow16(4) == 0x1_0000) by {
                reveal_with_fuel(pow16, 5);
            }
        }
        let data4 = [
            byte_at(&h, 8),
            byte_at(&h, 9),
            byte_at(&h, 10),
            byte_at(&h, 11),
            byte_at(&h, 12),
            byte_at(&h, 13),
            byte_at(&h, 14),
            byte_at(&h, 15),
        ];
        let g = Guid { data1, data2: data2 as u16, data3: data3 as u16, data4 };
        proof {
            assert forall|k: int| 0 <= k < 8 implies #[trigger] g.data4@[k] as int == hex_byte(
                h@,
                8 + k,
            ) by {
                assert(g.data4@[k] == data4@[k]);
            }
        }
        Some(g)
    }

    /// Reads Photon's byte dump: with ASCII whitespace and dashes taken out
    /// there must be exactly 32 hex digits, 16 bytes read as
    /// [`guid_from_bytes`] says.
    pub fn from_photon_data_hex(value: &str) -> (r: Option<Guid>)
        ensures
            ({
                let h = without(value@, |c: char| is_dash_or_white(c));
                match r {
                    Some(g) => h.len() == 32 && all_hex(h) && guid_from_bytes(g, h),
                    None => !(h.len() == 32 && all_hex(h)),
                }
            }),
    {
        let cs = chars_of(value);
        let h = strip_chars(&cs, true);
        if h.len() != 32 || !check_hex(&h) {
            return None;
        }
        let b0 = byte_at(&h, 0) as u32;
        let b1 = byte_at(&h, 1) as u32;
        let b2 = byte_at(&h, 2) as u32;
        let b3 = byte_at(&h, 3) as u32;
        let b4 = byte_at(&h, 4) as u16;
        let b5 = byte_at(&h, 5) as u16;
        let b6 = byte_at(&h, 6) as u16;
        let b7 = byte_at(&h, 7) as u16;
        let data4 = [
            byte_at(&h, 8),
            byte_at(&h, 9),
            byte_at(&h, 10),
            byte_at(&h, 11),
            byte_at(&h, 12),
            byte_at(&h, 13),
            byte_at(&h, 14),
            byte_at(&h, 15),
        ];
        let g = Guid {
            data1: b0 + b1 * 0x100 + b2 * 0x1_0000 + b3 * 0x100_0000,
            data2: b4 + b5 * 0x100,
            data3: b6 + b7 * 0x100,
            data4,
        };
        proof {
            assert forall|k: int| 0 <= k < 8 implies #[trigger] g.data4@[k] as int == hex_byte(
                h@,
                8 + k,
            ) by {
                assert(g.data4@[k] == data4@[k]);
            }
        }
        Some(g)
    }
}

/// The lowercase hex digit of a value below 16.
pub open spec fn hex_char(d: int) -> char {
    if d < 10 {
        (d + 48) as char
    } else {
        (d + 87) as char
    }
}

/// `v` in lowercase hex, `width` digits, zero-padded (the low digits
/// when `v` needs more).
pub open spec fn hex_digits(v: int, width: nat) -> Seq<char>
    decreases width,
{
    if width == 0 {
        Seq::empty()
    } else {
        hex_digits(v / 16, (width - 1) as nat).push(hex_char(v % 16))
    }
}

/// The hex digits of the eight bytes, two each, with nothing between.
pub open spec fn bytes_text(bs: Seq<u8>, n: nat) -> Seq<char>
    decreases n,
{
    if n == 0 {
        Seq::empty()
    } else {
        bytes_text(bs, (n - 1) as nat) + hex_digits(bs[n - 1] as int, 2)
    }
}

/// The text an identifier is written as: `data1`, `data2` and `data3` in
/// 8, 4 and 4 hex digits and the eight bytes in two digits each, with a
/// dash after each of the first three groups.
pub open spec fn guid_text(g: Guid) -> Seq<char> {
    hex_digits(g.data1 as int, 8) + seq!['-'] + hex_digits(g.data2 as int, 4) + seq!['-']
        + hex_digits(g.data3 as int, 4) + seq!['-'] + bytes_text(g.data4@, 8)
}

proof fn lemma_hex_char(d: int)
    requires
        0 <= d < 16,
    ensures
        is_hex(hex_char(d)),
        hex_value(hex_char(d)) == d,
        hex_char(d) != '-',
{
}

proof fn lemma_hex_digits(v: int, width: nat)
    requires
        0 <= v < pow16(width),
    ensures
        hex_digits(v, width).len() == width,
        all_hex(hex_digits(v, width)),
        hex_number(hex_digits(v, width)) == v,
        forall|i: int| 0 <= i < width ==> #[trigger] hex_digits(v, width)[i] != '-',
    decreases width,
{
    if width > 0 {
        let w1 = (width - 1) as nat;
        assert(v / 16 < pow16(w1)) by (nonlinear_arith)
            requires
                v < 16 * pow16(w1),
                0 <= v,
        ;
        lemma_hex_digits(v / 16, w1);
        lemma_hex_char(v % 16);
        let s = hex_digits(v, width);
        assert(s.drop_last() =~= hex_digits(v / 16, w1));
    }
}

fn push_hex(out: &mut Vec<char>, v: u32, width: usize)
    ensures
        final(out)@ == old(out)@ + hex_digits(v as int, width as nat),
    decreases width,
{
    if width == 0 {
        assert(old(out)@ + hex_digits(v as int, 0) =~= old(out)@);
        return;
    }
    push_hex(out, v / 16, width - 1);
    let d = v % 16;
    let c = if d < 10 {
        char_of_digit(d)
    } else {
        char_of_letter(d)
    };
    let ghost before = out@;
    out.push(c);
    assert(out@ =~= old(out)@ + hex_digits(v as int, width as nat));
}

fn char_of_digit(d: u32) -> (r: char)
    requires
        d < 10,
    ensures
        r == hex_char(d as int),
{
    let digits: [char; 10] = ['0', '1', '2', '3', '4', '5', '6', '7', '8', '9'];
    digits[d as usize]
}

fn char_of_letter(d: u32) -> (r: char)
    requires
        10 <= d < 16,
    ensures
        r == hex_char(d as int),
{
    let letters: [char; 6] = ['a', 'b', 'c', 'd', 'e', 'f'];
    letters[(d - 10) as usize]
}

impl Guid {
    /// The identifier's text, as [`guid_text`] says: lowercase hex groups,
    /// `xxxxxxxx-xxxx-xxxx-xxxxxxxxxxxxxxxx`.
    pub fn to_text(&self) -> (r: String)
        ensures
            r@ == guid_text(*self),
    {
        let mut out: Vec<char> = Vec::new();
        push_hex(&mut out, self.data1, 8);
        out.push('-');
        push_hex(&mut out, self.data2 as u32, 4);
        out.push('-');
        push_hex(&mut out, self.data3 as u32, 4);
        out.push('-');
        let ghost head = out@;
        proof {
            assert(head + bytes_text(self.data4@, 0) =~= head);
        }
        let mut k: usize = 0;
        while k < 8
            invariant
                k <= 8,
                out@ == head + bytes_text(self.data4@, k as nat),
            decreases 8 - k,
        {
            push_hex(&mut out, self.data4[k] as u32, 2);
            proof {
                assert(out@ =~= head + bytes_text(self.data4@, (k + 1) as nat));
            }
            k = k + 1;
        }
        proof {
            assert(out@ =~= guid_text(*self));
        }
        string_from_chars(out.as_slice())
    }
}

proof fn lemma_without_concat(s: Seq<char>, t: Seq<char>, drop: spec_fn(char) -> bool)
    ensures
        without(s + t, drop) == without(s, drop) + without(t, drop),
    decreases t.len(),
{
    if t.len() == 0 {
        assert(s + t =~= s);
        assert(without(s, drop) + without(t, drop) =~= without(s, drop));
    } else {
        assert((s + t).drop_last() =~= s + t.drop_last());
        assert((s + t).last() == t.last());
        lemma_without_concat(s, t.drop_last(), drop);
        if drop(t.last()) {
        } else {
            assert(without(s, drop) + without(t.drop_last(), drop).push(t.last()) =~= (without(
                s,
                drop,
            ) + without(t.drop_last(), drop)).push(t.last()));
        }
    }
}

proof fn lemma_without_keeps(s: Seq<char>, drop: spec_fn(char) -> bool)
    requires
        forall|i: int| 0 <= i < s.len() ==> !drop(#[trigger] s[i]),
    ensures
        without(s, drop) == s,
    decreases s.len(),
{
    if s.len() > 0 {
        assert forall|i: int| 0 <= i < s.drop_last().len() implies !drop(
            #[trigger] s.drop_last()[i],
        ) by {
            assert(s.drop_last()[i] == s[i]);
        }
        lemma_without_keeps(s.drop_last(), drop);
        assert(s.drop_last().push(s.last()) =~= s);
    }
}

proof fn lemma_bytes_text(bs: Seq<u8>, n: nat)
    requires
        n <= bs.len(),
    ensures
        bytes_text(bs, n).len() == 2 * n,
        all_hex(bytes_text(bs, n)),
        forall|i: int| 0 <= i < 2 * n ==> #[trigger] bytes_text(bs, n)[i] != '-',
        forall|k: int|
            0 <= k < n ==> #[trigger] hex_number(bytes_text(bs, n).subrange(2 * k, 2 * k + 2))
                == bs[k] as int,
    decreases n,
{
    if n > 0 {
        let m = (n - 1) as nat;
        lemma_bytes_text(bs, m);
        assert(pow16(2) == 256) by {
            reveal_with_fuel(pow16, 3);
        }
        lemma_hex_digits(bs[m as int] as int, 2);
        let prev = bytes_text(bs, m);
        let last = hex_digits(bs[m as int] as int, 2);
        let t = bytes_text(bs, n);
        assert(t == prev + last);
        assert forall|i: int| 0 <= i < 2 * n implies is_hex(#[trigger] t[i]) && t[i] != '-' by {
            if i < 2 * m {
                assert(t[i] == prev[i]);
            } else {
                assert(t[i] == last[i - 2 * m]);
            }
        }
        assert forall|k: int| 0 <= k < n implies #[trigger] hex_number(t.subrange(2 * k, 2 * k + 2))
            == bs[k] as int by {
            if k < m {
                assert(t.subrange(2 * k, 2 * k + 2) =~= prev.subrange(2 * k, 2 * k + 2));
            } else {
                assert(t.subrange(2 * k, 2 * k + 2) =~= last);
            }
        }
    }
}

/// An identifier's text reads back as the same identifier: whatever
/// [`Guid::from_str`] may give for [`guid_text`] of `g` is `g` itself.
pub proof fn law_guid_text_reads_back(g: Guid, r: Option<Guid>)
    requires
        read_groups(r, guid_text(g)),
    ensures
        r == Some(g),
{
    let dash = |c: char| is_dash(c);
    let d1 = hex_digits(g.data1 as int, 8);
    let d2 = hex_digits(g.data2 as int, 4);
    let d3 = hex_digits(g.data3 as int, 4);
    let bt = bytes_text(g.data4@, 8);
    assert(pow16(8) == 0x1_0000_0000) by {
        reveal_with_fuel(pow16, 9);
    }
    assert(pow16(4) == 0x1_0000) by {
        reveal_with_fuel(pow16, 5);
    }
    lemma_hex_digits(g.data1 as int, 8);
    lemma_hex_digits(g.data2 as int, 4);
    lemma_hex_digits(g.data3 as int, 4);
    lemma_bytes_text(g.data4@, 8);
    lemma_without_keeps(d1, dash);
    lemma_without_keeps(d2, dash);
    lemma_without_keeps(d3, dash);
    lemma_without_keeps(bt, dash);
    let sep = seq!['-'];
    assert(without(sep, dash) =~= Seq::<char>::empty()) by {
        assert(sep.drop_last() =~= Seq::<char>::empty());
        assert(sep.last() == '-');
        assert(dash(sep.last()));
        assert(without(sep.drop_last(), dash) == Seq::<char>::empty());
    }
    lemma_without_concat(d1, sep, dash);
    lemma_without_concat(d1 + sep, d2, dash);
    lemma_without_concat(d1 + sep + d2, sep, dash);
    lemma_without_concat(d1 + sep + d2 + sep, d3, dash);
    lemma_without_concat(d1 + sep + d2 + sep + d3, sep, dash);
    lemma_without_concat(d1 + sep + d2 + sep + d3 + sep, bt, dash);
    let h = without(guid_text(g), dash);
    assert(h =~= d1 + d2 + d3 + bt);
    assert(h.subrange(0, 8) =~= d1);
    assert(h.subrange(8, 12) =~= d2);
    assert(h.subrange(12, 16) =~= d3);
    assert(all_hex(h)) by {
        assert forall|i: int| 0 <= i < h.len() implies is_hex(#[trigger] h[i]) by {
            if i < 8 {
                assert(h[i] == d1[i]);
            } else if i < 12 {
                assert(h[i] == d2[i - 8]);
            } else if i < 16 {
                assert(h[i] == d3[i - 12]);
            } else {
                assert(h[i] == bt[i - 16]);
            }
        }
    }
    let g2 = r->Some_0;
    assert forall|k: int| 0 <= k < 8 implies g2.data4[k] == g.data4[k] by {
        assert(h.subrange(2 * (8 + k), 2 * (8 + k) + 2) =~= bt.subrange(2 * k, 2 * k + 2));
        assert(g2.data4@[k] as int == hex_byte(h, 8 + k));
    }
    assert(g2.data4 =~= g.data4);
}

} // verus!
