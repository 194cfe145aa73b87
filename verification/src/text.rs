//! Character-level helpers over strings: conversion to and from character
//! vectors, ASCII case folding, whitespace trimming, splitting, and decimal
//! integer parsing and formatting with the semantics of Rust's `FromStr`.

use vstd::prelude::*;

verus! {

/// Appends one character to a string.
/// Trusted: calls `String::push`, which the standard library documents as
/// appending the character to the end of the string.
#[verifier::external_body]
fn push_char(s: &mut String, c: char)
    ensures
        final(s)@ == old(s)@.push(c),
{
    s.push(c);
}

/// Builds a `String` holding exactly the given characters.
pub fn string_from_chars(cs: &[char]) -> (s: String)
    ensures
        s@ == cs@,
{
    let mut s = String::new();
    let mut i: usize = 0;
    while i < cs.len()
        invariant
            i <= cs.len(),
            s@ == cs@.take(i as int),
        decreases cs.len() - i,
    {
        push_char(&mut s, cs[i]);
        assert(cs@.take(i as int).push(cs@[i as int]) =~= cs@.take(i + 1));
        i = i + 1;
    }
    assert(cs@.take(cs.len() as int) =~= cs@);
    s
}

/// The characters of a string slice, in order.
pub fn chars_of(s: &str) -> (v: Vec<char>)
    ensures
        v@ == s@,
{
    let n = s.unicode_len();
    let mut v: Vec<char> = Vec::new();
    let mut i: usize = 0;
    while i < n
        invariant
            n == s@.len(),
            i <= n,
            v@ == s@.take(i as int),
        decreases n - i,
    {
        let c = s.get_char(i);
        v.push(c);
        assert(s@.take(i as int).push(c) =~= s@.take(i + 1));
        i = i + 1;
    }
    assert(s@.take(n as int) =~= s@);
    v
}


/// ASCII lower-casing of one character; every other character is unchanged.
pub open spec fn ascii_lower(c: char) -> char {
    if 'A' <= c && c <= 'Z' {
        ((c as u32) + 32) as char
    } else {
        c
    }
}

/// Two character sequences are equal up to ASCII case.
pub open spec fn eq_ignore_case(a: Seq<char>, b: Seq<char>) -> bool {
    &&& a.len() == b.len()
    &&& forall|i: int| 0 <= i < a.len() ==> #[trigger] ascii_lower(a[i]) == ascii_lower(b[i])
}

fn lower_char(c: char) -> (r: char)
    ensures
        r == ascii_lower(c),
{
    if 'A' <= c && c <= 'Z' {
        let code: u8 = ((c as u32) + 32) as u8;
        code as char
    } else {
        c
    }
}

/// ASCII-case-insensitive comparison, as `str::eq_ignore_ascii_case`.
pub fn eq_ignore_ascii_case(a: &str, b: &str) -> (r: bool)
    ensures
        r == eq_ignore_case(a@, b@),
{
    let x = chars_of(a);
    let y = chars_of(b);
    chars_eq_ignore_ascii_case(&x, &y)
}

/// ASCII-case-insensitive comparison of two character slices.
pub fn chars_eq_ignore_ascii_case(x: &[char], y: &[char]) -> (r: bool)
    ensures
        r == eq_ignore_case(x@, y@),
{
    if x.len() != y.len() {
        return false;
    }
    let mut i: usize = 0;
    while i < x.len()
        invariant
            x.len() == y.len(),
            i <= x.len(),
            forall|j: int| 0 <= j < i ==> #[trigger] ascii_lower(x@[j]) == ascii_lower(y@[j]),
        decreases x.len() - i,
    {
        if lower_char(x[i]) != lower_char(y[i]) {
            return false;
        }
        i = i + 1;
    }
    true
}

/// Unicode `White_Space` characters, as tested by `char::is_whitespace`.
pub open spec fn is_white(c: char) -> bool {
    let u = c as u32;
    ||| 9 <= u <= 13
    ||| u == 32
    ||| u == 0x85
    ||| u == 0xa0
    ||| u == 0x1680
    ||| 0x2000 <= u <= 0x200a
    ||| u == 0x2028
    ||| u == 0x2029
    ||| u == 0x202f
    ||| u == 0x205f
    ||| u == 0x3000
}

pub fn is_whitespace(c: char) -> (r: bool)
    ensures
        r == is_white(c),
{
    let u = c as u32;
    (9 <= u && u <= 13) || u == 32 || u == 0x85 || u == 0xa0 || u == 0x1680 || (0x2000 <= u && u
        <= 0x200a) || u == 0x2028 || u == 0x2029 || u == 0x202f || u == 0x205f || u == 0x3000
}

/// Index of the first non-white character (the length when there is none).
pub open spec fn trim_start_index(s: Seq<char>) -> int
    decreases s.len(),
{
    if s.len() == 0 {
        0
    } else if is_white(s[0]) {
        1 + trim_start_index(s.drop_first())
    } else {
        0
    }
}

/// One past the last non-white character (0 when there is none).
pub open spec fn trim_end_index(s: Seq<char>) -> int
    decreases s.len(),
{
    if s.len() == 0 {
        0
    } else if is_white(s.last()) {
        trim_end_index(s.drop_last())
    } else {
        s.len() as int
    }
}

/// What `str::trim` leaves of a sequence of characters.
pub open spec fn trimmed(s: Seq<char>) -> Seq<char> {
    let a = trim_start_index(s);
    let b = trim_end_index(s);
    if a < b {
        s.subrange(a, b)
    } else {
        Seq::empty()
    }
}

proof fn lemma_trim_start_bound(s: Seq<char>)
    ensures
        0 <= trim_start_index(s) <= s.len(),
        forall|j: int| 0 <= j < trim_start_index(s) ==> is_white(#[trigger] s[j]),
        trim_start_index(s) < s.len() ==> !is_white(s[trim_start_index(s)]),
    decreases s.len(),
{
    if s.len() > 0 && is_white(s[0]) {
        lemma_trim_start_bound(s.drop_first());
        assert forall|j: int| 0 <= j < trim_start_index(s) implies is_white(#[trigger] s[j]) by {
            if j > 0 {
                assert(s[j] == s.drop_first()[j - 1]);
            }
        }
    }
}

proof fn lemma_trim_end_bound(s: Seq<char>)
    ensures
        0 <= trim_end_index(s) <= s.len(),
        forall|j: int| trim_end_index(s) <= j < s.len() ==> is_white(#[trigger] s[j]),
        trim_end_index(s) > 0 ==> !is_white(s[trim_end_index(s) - 1]),
    decreases s.len(),
{
    if s.len() > 0 && is_white(s.last()) {
        lemma_trim_end_bound(s.drop_last());
        assert forall|j: int| trim_end_index(s) <= j < s.len() implies is_white(#[trigger] s[j]) by {
            if j < s.len() - 1 {
                assert(s[j] == s.drop_last()[j]);
            }
        }
    }
}

proof fn lemma_trim_start_char(s: Seq<char>, k: int)
    requires
        0 <= k <= s.len(),
        forall|j: int| 0 <= j < k ==> is_white(#[trigger] s[j]),
        k < s.len() ==> !is_white(s[k]),
    ensures
        trim_start_index(s) == k,
    decreases s.len(),
{
    if s.len() > 0 && k > 0 {
        assert(is_white(s[0]));
        assert forall|j: int| 0 <= j < k - 1 implies is_white(#[trigger] s.drop_first()[j]) by {
            assert(s.drop_first()[j] == s[j + 1]);
        }
        lemma_trim_start_char(s.drop_first(), k - 1);
    }
}

proof fn lemma_trim_end_char(s: Seq<char>, k: int)
    requires
        0 <= k <= s.len(),
        forall|j: int| k <= j < s.len() ==> is_white(#[trigger] s[j]),
        k > 0 ==> !is_white(s[k - 1]),
    ensures
        trim_end_index(s) == k,
    decreases s.len(),
{
    if s.len() > 0 && k < s.len() {
        assert(is_white(s[s.len() - 1]));
        assert forall|j: int| k <= j < s.drop_last().len() implies is_white(
            #[trigger] s.drop_last()[j],
        ) by {
            assert(s.drop_last()[j] == s[j]);
        }
        lemma_trim_end_char(s.drop_last(), k);
    }
}

/// `str::trim` on a character slice.
pub fn trim_chars(cs: &[char]) -> (r: Vec<char>)
    ensures
        r@ == trimmed(cs@),
{
    let mut a: usize = 0;
    while a < cs.len() && is_whitespace(cs[a])
        invariant
            a <= cs.len(),
            forall|j: int| 0 <= j < a ==> is_white(#[trigger] cs@[j]),
        decreases cs.len() - a,
    {
        a = a + 1;
    }
    proof {
        lemma_trim_start_char(cs@, a as int);
    }
    let mut b: usize = cs.len();
    while b > 0 && is_whitespace(cs[b - 1])
        invariant
            b <= cs.len(),
            forall|j: int| b <= j < cs.len() ==> is_white(#[trigger] cs@[j]),
        decreases b,
    {
        b = b - 1;
    }
    proof {
        lemma_trim_end_char(cs@, b as int);
    }
    let mut r: Vec<char> = Vec::new();
    if a < b {
        let mut i = a;
        while i < b
            invariant
                a <= i <= b <= cs.len(),
                r@ == cs@.subrange(a as int, i as int),
            decreases b - i,
        {
            r.push(cs[i]);
            assert(cs@.subrange(a as int, i as int).push(cs@[i as int]) =~= cs@.subrange(
                a as int,
                i + 1,
            ));
            i = i + 1;
        }
    } else {
        assert(r@ =~= Seq::<char>::empty());
    }
    r
}

/// Position of the first occurrence of `c`, if any.
pub open spec fn first_index_of(s: Seq<char>, c: char) -> Option<int>
    decreases s.len(),
{
    if s.len() == 0 {
        None
    } else if s[0] == c {
        Some(0)
    } else {
        match first_index_of(s.drop_first(), c) {
            Some(i) => Some(i + 1),
            None => None,
        }
    }
}

proof fn lemma_first_index_char(s: Seq<char>, c: char, k: int)
    requires
        0 <= k <= s.len(),
        forall|j: int| 0 <= j < k ==> #[trigger] s[j] != c,
    ensures
        k < s.len() && s[k] == c ==> first_index_of(s, c) == Some(k),
        k == s.len() ==> first_index_of(s, c) is None,
    decreases s.len(),
{
    if s.len() > 0 && k > 0 {
        assert forall|j: int| 0 <= j < k - 1 implies #[trigger] s.drop_first()[j] != c by {
            assert(s.drop_first()[j] == s[j + 1]);
        }
        lemma_first_index_char(s.drop_first(), c, k - 1);
    }
}

/// Finds the first occurrence of `c` in a character slice.
pub fn find_char(cs: &[char], c: char) -> (r: Option<usize>)
    ensures
        match r {
            Some(i) => first_index_of(cs@, c) == Some(i as int) && i < cs.len(),
            None => first_index_of(cs@, c) is None,
        },
{
    let mut i: usize = 0;
    while i < cs.len()
        invariant
            i <= cs.len(),
            forall|j: int| 0 <= j < i ==> #[trigger] cs@[j] != c,
        decreases cs.len() - i,
    {
        if cs[i] == c {
            proof {
                lemma_first_index_char(cs@, c, i as int);
            }
            return Some(i);
        }
        i = i + 1;
    }
    proof {
        lemma_first_index_char(cs@, c, i as int);
    }
    None
}

/// The pieces between separators, as `str::split` with a character pattern.
pub open spec fn split_seq(s: Seq<char>, sep: char) -> Seq<Seq<char>>
    decreases s.len(),
{
    if s.len() == 0 {
        seq![Seq::empty()]
    } else {
        let rest = split_seq(s.drop_last(), sep);
        if s.last() == sep {
            rest.push(Seq::empty())
        } else {
            rest.update(rest.len() - 1, rest.last().push(s.last()))
        }
    }
}

pub proof fn lemma_split_nonempty(s: Seq<char>, sep: char)
    ensures
        split_seq(s, sep).len() >= 1,
    decreases s.len(),
{
    if s.len() > 0 {
        lemma_split_nonempty(s.drop_last(), sep);
    }
}

/// Splits a character slice at every occurrence of `sep`.
pub fn split_chars(cs: &[char], sep: char) -> (r: Vec<Vec<char>>)
    ensures
        r.len() == split_seq(cs@, sep).len(),
        forall|j: int| 0 <= j < r.len() ==> (#[trigger] r@[j])@ == split_seq(cs@, sep)[j],
{
    let mut r: Vec<Vec<char>> = Vec::new();
    let mut cur: Vec<char> = Vec::new();
    let mut i: usize = 0;
    proof {
        assert(cs@.take(0) =~= Seq::<char>::empty());
    }
    while i < cs.len()
        invariant
            i <= cs.len(),
            r.len() + 1 == split_seq(cs@.take(i as int), sep).len(),
            forall|j: int| 0 <= j < r.len() ==> (#[trigger] r@[j])@ == split_seq(cs@.take(i as int), sep)[j],
            cur@ == split_seq(cs@.take(i as int), sep).last(),
        decreases cs.len() - i,
    {
        let ghost prev = split_seq(cs@.take(i as int), sep);
        proof {
            lemma_split_nonempty(cs@.take(i as int), sep);
            assert(cs@.take(i + 1).drop_last() =~= cs@.take(i as int));
        }
        let c = cs[i];
        if c == sep {
            let mut done: Vec<char> = Vec::new();
            std::mem::swap(&mut done, &mut cur);
            r.push(done);
        } else {
            cur.push(c);
        }
        i = i + 1;
        proof {
            let now = split_seq(cs@.take(i as int), sep);
            assert(cs@.take(i as int).last() == c);
            if c == sep {
                assert(now == prev.push(Seq::<char>::empty()));
                assert(cur@ =~= Seq::<char>::empty());
            } else {
                assert(now == prev.update(prev.len() - 1, prev.last().push(c)));
            }
        }
    }
    r.push(cur);
    proof {
        assert(cs@.take(cs.len() as int) =~= cs@);
    }
    r
}


pub open spec fn is_digit(c: char) -> bool {
    '0' <= c && c <= '9'
}

pub open spec fn digit_value(c: char) -> int {
    c as int - '0' as int
}

pub open spec fn all_digits(s: Seq<char>) -> bool {
    forall|i: int| 0 <= i < s.len() ==> is_digit(#[trigger] s[i])
}

/// The number that a string of decimal digits spells.
pub open spec fn digits_value(s: Seq<char>) -> int
    decreases s.len(),
{
    if s.len() == 0 {
        0
    } else {
        digits_value(s.drop_last()) * 10 + digit_value(s.last())
    }
}

/// The number a string spells under Rust's integer `FromStr` grammar: an
/// optional sign (`-` only when `allow_minus`) followed by at least one
/// decimal digit, nothing else. Range limits are applied by the callers.
pub open spec fn spec_parse_decimal(s: Seq<char>, allow_minus: bool) -> Option<int> {
    if s.len() > 0 && (s[0] == '+' || (allow_minus && s[0] == '-')) {
        let body = s.drop_first();
        if body.len() > 0 && all_digits(body) {
            if s[0] == '-' {
                Some(-digits_value(body))
            } else {
                Some(digits_value(body))
            }
        } else {
            None
        }
    } else if s.len() > 0 && all_digits(s) {
        Some(digits_value(s))
    } else {
        None
    }
}

/// The value `T::from_str` gives for an integer type whose range is `lo..=hi`.
pub open spec fn spec_parse_int(s: Seq<char>, lo: int, hi: int) -> Option<int> {
    match spec_parse_decimal(s, lo < 0) {
        Some(v) => if lo <= v <= hi {
            Some(v)
        } else {
            None
        },
        None => None,
    }
}

proof fn lemma_digits_value_nonneg(s: Seq<char>)
    requires
        all_digits(s),
    ensures
        digits_value(s) >= 0,
    decreases s.len(),
{
    if s.len() > 0 {
        lemma_digits_value_nonneg(s.drop_last());
    }
}

proof fn lemma_digits_value_prefix(s: Seq<char>, k: int)
    requires
        all_digits(s),
        0 <= k <= s.len(),
    ensures
        digits_value(s.take(k)) <= digits_value(s),
    decreases s.len(),
{
    if k < s.len() {
        assert(s.drop_last().take(k) =~= s.take(k));
        lemma_digits_value_prefix(s.drop_last(), k);
        lemma_digits_value_nonneg(s.drop_last());
    } else {
        assert(s.take(k) =~= s);
    }
}

/// Parses a decimal integer with the grammar of Rust's integer `FromStr`,
/// accepting it only when its value lies in `lo..=hi`.
pub fn parse_decimal_in_range(cs: &[char], lo: i128, hi: i128) -> (r: Option<i128>)
    requires
        -0x1_0000_0000_0000_0000 <= lo <= 0 <= hi <= 0x1_0000_0000_0000_0000,
    ensures
        match r {
            Some(v) => spec_parse_int(cs@, lo as int, hi as int) == Some(v as int),
            None => spec_parse_int(cs@, lo as int, hi as int) is None,
        },
{
    let n = cs.len();
    if n == 0 {
        return None;
    }
    let first = cs[0];
    let negative = lo < 0 && first == '-';
    let start: usize = if first == '+' || negative { 1 } else { 0 };
    if start == n {
        return None;
    }
    let ghost body = cs@.skip(start as int);
    let mut acc: i128 = 0;
    let mut i: usize = start;
    while i < n
        invariant
            start <= i <= n,
            n == cs.len(),
            n > 0,
            first == cs@[0],
            negative == (lo < 0 && first == '-'),
            start == (if first == '+' || negative { 1usize } else { 0usize }),
            -0x1_0000_0000_0000_0000 <= lo <= 0 <= hi <= 0x1_0000_0000_0000_0000,
            body == cs@.skip(start as int),
            all_digits(body.take(i - start)),
            acc == digits_value(body.take(i - start)),
            0 <= acc <= 0x1_0000_0000_0000_0000,
        decreases n - i,
    {
        let c = cs[i];
        if !('0' <= c && c <= '9') {
            proof {
                assert(body[i - start] == c);
                assert(!is_digit(body[i - start]));
                assert(!all_digits(body));
                if start == 1 {
                    assert(cs@.drop_first() =~= body);
                } else {
                    assert(cs@ =~= body);
                }
            }
            return None;
        }
        let d = (c as u32 - '0' as u32) as i128;
        let ghost old_take = body.take(i - start);
        proof {
            assert(body.take(i + 1 - start).drop_last() =~= old_take);
            assert(body.take(i + 1 - start).last() == c);
            assert forall|j: int| 0 <= j < i + 1 - start implies is_digit(
                #[trigger] body.take(i + 1 - start)[j],
            ) by {
                if j < i - start {
                    assert(body.take(i + 1 - start)[j] == old_take[j]);
                }
            }
        }
        acc = acc * 10 + d;
        i = i + 1;
        if acc > 0x1_0000_0000_0000_0000 {
            // the value only grows from here, so it is out of range or the
            // rest is not a number at all
            proof {
                if all_digits(body) {
                    lemma_digits_value_prefix(body, i - start);
                    assert(digits_value(body) >= acc);
                }
                if start == 1 {
                    assert(cs@.drop_first() =~= body);
                } else {
                    assert(cs@ =~= body);
                }
            }
            return None;
        }
    }
    proof {
        assert(body.take(n - start) =~= body);
        if start == 1 {
            assert(cs@.drop_first() =~= body);
        } else {
            assert(cs@ =~= body);
        }
    }
    let v = if negative { -acc } else { acc };
    if lo <= v && v <= hi {
        Some(v)
    } else {
        None
    }
}

/// `str::parse::<i64>` on a character slice.
pub fn parse_i64_chars(cs: &[char]) -> (r: Option<i64>)
    ensures
        match r {
            Some(v) => spec_parse_int(cs@, i64::MIN as int, i64::MAX as int) == Some(v as int),
            None => spec_parse_int(cs@, i64::MIN as int, i64::MAX as int) is None,
        },
{
    match parse_decimal_in_range(cs, i64::MIN as i128, i64::MAX as i128) {
        Some(v) => Some(v as i64),
        None => None,
    }
}

/// `str::parse::<i32>` on a character slice.
pub fn parse_i32_chars(cs: &[char]) -> (r: Option<i32>)
    ensures
        match r {
            Some(v) => spec_parse_int(cs@, i32::MIN as int, i32::MAX as int) == Some(v as int),
            None => spec_parse_int(cs@, i32::MIN as int, i32::MAX as int) is None,
        },
{
    match parse_decimal_in_range(cs, i32::MIN as i128, i32::MAX as i128) {
        Some(v) => Some(v as i32),
        None => None,
    }
}

/// `str::parse::<u8>` on a character slice.
pub fn parse_u8_chars(cs: &[char]) -> (r: Option<u8>)
    ensures
        match r {
            Some(v) => spec_parse_int(cs@, 0, u8::MAX as int) == Some(v as int),
            None => spec_parse_int(cs@, 0, u8::MAX as int) is None,
        },
{
    match parse_decimal_in_range(cs, 0, u8::MAX as i128) {
        Some(v) => Some(v as u8),
        None => None,
    }
}

/// `str::parse::<u16>` on a character slice.
pub fn parse_u16_chars(cs: &[char]) -> (r: Option<u16>)
    ensures
        match r {
            Some(v) => spec_parse_int(cs@, 0, u16::MAX as int) == Some(v as int),
            None => spec_parse_int(cs@, 0, u16::MAX as int) is None,
        },
{
    match parse_decimal_in_range(cs, 0, u16::MAX as i128) {
        Some(v) => Some(v as u16),
        None => None,
    }
}

pub open spec fn digit_char(d: int) -> char {
    (d + 48) as char
}

/// Decimal digits of a natural number, most significant first, no leading zeros.
pub open spec fn decimal_digits(n: nat) -> Seq<char>
    decreases n,
{
    if n < 10 {
        seq![digit_char(n as int)]
    } else {
        decimal_digits(n / 10).push(digit_char((n % 10) as int))
    }
}

/// The text `to_string` gives for an integer.
pub open spec fn decimal(n: int) -> Seq<char> {
    if n < 0 {
        seq!['-'] + decimal_digits((-n) as nat)
    } else {
        decimal_digits(n as nat)
    }
}

fn push_decimal_digits(out: &mut Vec<char>, n: u64)
    ensures
        final(out)@ == old(out)@ + decimal_digits(n as nat),
    decreases n,
{
    if n >= 10 {
        push_decimal_digits(out, n / 10);
    }
    let d: u8 = (n % 10) as u8;
    out.push((d + 48) as char);
    proof {
        if n >= 10 {
            assert(decimal_digits(n as nat) == decimal_digits((n / 10) as nat).push(
                digit_char((n % 10) as int),
            ));
        }
    }
    assert(final(out)@ =~= old(out)@ + decimal_digits(n as nat));
}

/// Decimal text of a signed integer, as `i64::to_string`.
pub fn format_i64(n: i64) -> (s: String)
    ensures
        s@ == decimal(n as int),
{
    let mut out: Vec<char> = Vec::new();
    let magnitude: u64 = if n < 0 {
        if n == i64::MIN {
            0x8000_0000_0000_0000u64
        } else {
            (-n) as u64
        }
    } else {
        n as u64
    };
    if n < 0 {
        out.push('-');
    }
    push_decimal_digits(&mut out, magnitude);
    assert(out@ =~= decimal(n as int));
    string_from_chars(&out)
}


/// Character-wise equality of two string slices.
pub fn str_eq(a: &str, b: &str) -> (r: bool)
    ensures
        r == (a@ == b@),
{
    let x = chars_of(a);
    let y = chars_of(b);
    if x.len() != y.len() {
        return false;
    }
    let mut i: usize = 0;
    while i < x.len()
        invariant
            x.len() == y.len(),
            i <= x.len(),
            x@ == a@,
            y@ == b@,
            forall|j: int| 0 <= j < i ==> x@[j] == y@[j],
        decreases x.len() - i,
    {
        if x[i] != y[i] {
            return false;
        }
        i = i + 1;
    }
    assert(x@ =~= y@);
    true
}

/// A `String` holding the characters of a string slice.
pub fn to_owned_string(s: &str) -> (r: String)
    ensures
        r@ == s@,
{
    let cs = chars_of(s);
    string_from_chars(&cs)
}

/// The concatenation of two string slices.
pub fn concat_str(a: &str, b: &str) -> (r: String)
    ensures
        r@ == a@ + b@,
{
    let mut cs = chars_of(a);
    let bs = chars_of(b);
    let mut i: usize = 0;
    while i < bs.len()
        invariant
            i <= bs.len(),
            bs@ == b@,
            cs@ == a@ + b@.take(i as int),
        decreases bs.len() - i,
    {
        cs.push(bs[i]);
        assert(a@ + b@.take(i + 1) =~= (a@ + b@.take(i as int)).push(b@[i as int]));
        i = i + 1;
    }
    assert(b@.take(b@.len() as int) =~= b@);
    string_from_chars(&cs)
}

/// Decimal text of an unsigned integer, as `u64::to_string`.
pub fn format_u64(n: u64) -> (s: String)
    ensures
        s@ == decimal(n as int),
{
    let mut out: Vec<char> = Vec::new();
    push_decimal_digits(&mut out, n);
    assert(out@ =~= decimal(n as int));
    string_from_chars(&out)
}

/// What reading digits `b[i..]` into `acc` as an unsigned integer of at
/// most `max` gives: the value, or the standard library's message for the
/// first character that is not a digit or that takes the value past `max`.
pub open spec fn uint_digits(b: Seq<char>, i: int, acc: int, max: int) -> Result<int, Seq<char>>
    decreases b.len() - i,
{
    if i >= b.len() || i < 0 {
        Ok(acc)
    } else if !is_digit(b[i]) {
        Err("invalid digit found in string"@)
    } else if acc * 10 + digit_value(b[i]) > max {
        Err("number too large to fit in target type"@)
    } else {
        uint_digits(b, i + 1, acc * 10 + digit_value(b[i]), max)
    }
}

/// What `FromStr` gives for an unsigned integer type of maximum `max`: the
/// value, or the message of its error.
pub open spec fn spec_uint_result(s: Seq<char>, max: int) -> Result<int, Seq<char>> {
    if s.len() == 0 {
        Err("cannot parse integer from empty string"@)
    } else {
        let body = if s[0] == '+' {
            s.drop_first()
        } else {
            s
        };
        if body.len() == 0 {
            Err("invalid digit found in string"@)
        } else {
            uint_digits(body, 0, 0, max)
        }
    }
}

/// Reads an unsigned integer of at most `max`, as [`spec_uint_result`] says.
pub fn parse_uint_result(s: &[char], max: u64) -> (r: Result<u64, &'static str>)
    ensures
        match r {
            Ok(v) => spec_uint_result(s@, max as int) == Ok::<int, Seq<char>>(v as int) && v <= max,
            Err(m) => spec_uint_result(s@, max as int) == Err::<int, Seq<char>>(m@),
        },
{
    if s.len() == 0 {
        return Err("cannot parse integer from empty string");
    }
    let start: usize = if s[0] == '+' {
        1
    } else {
        0
    };
    let ghost body = if s@[0] == '+' {
        s@.drop_first()
    } else {
        s@
    };
    assert(body =~= s@.skip(start as int));
    if s.len() == start {
        return Err("invalid digit found in string");
    }
    let mut acc: u64 = 0;
    let mut i: usize = start;
    while i < s.len()
        invariant
            start <= i <= s.len(),
            body =~= s@.skip(start as int),
            acc <= max,
            spec_uint_result(s@, max as int) == uint_digits(body, i - start, acc as int, max as int),
            body.len() > 0,
        decreases s.len() - i,
    {
        let c = s[i];
        if !('0' <= c && c <= '9') {
            return Err("invalid digit found in string");
        }
        let d = c as u64 - '0' as u64;
        if (acc as u128) * 10 + (d as u128) > max as u128 {
            return Err("number too large to fit in target type");
        }
        acc = acc * 10 + d;
        i = i + 1;
    }
    Ok(acc)
}

/// The lowercase hex digit of a value below 16.
pub open spec fn hex_digit_char(d: int) -> char {
    if d < 10 {
        (d + 48) as char
    } else {
        (d + 87) as char
    }
}

/// Lowercase hex digits of a value below 256, without leading zeros.
pub open spec fn small_hex(v: int) -> Seq<char> {
    if v < 16 {
        seq![hex_digit_char(v)]
    } else {
        seq![hex_digit_char(v / 16), hex_digit_char(v % 16)]
    }
}

/// How `{:?}` writes an ASCII character inside a string: the escapes
/// `\0 \t \r \n \\ \"`, other control characters as `\u{..}`, the rest
/// as they are. Characters beyond ASCII are kept as they are.
pub open spec fn debug_char(c: char) -> Seq<char> {
    if c == '\0' {
        seq!['\\', '0']
    } else if c == '\t' {
        seq!['\\', 't']
    } else if c == '\r' {
        seq!['\\', 'r']
    } else if c == '\n' {
        seq!['\\', 'n']
    } else if c == '\\' {
        seq!['\\', '\\']
    } else if c == '"' {
        seq!['\\', '"']
    } else if (c as int) < 0x20 || c as int == 0x7f {
        seq!['\\', 'u', '{'] + small_hex(c as int) + seq!['}']
    } else {
        seq![c]
    }
}

pub open spec fn debug_chars(s: Seq<char>) -> Seq<char>
    decreases s.len(),
{
    if s.len() == 0 {
        Seq::empty()
    } else {
        debug_chars(s.drop_last()) + debug_char(s.last())
    }
}

/// A string as `{:?}` writes it: quoted, with [`debug_char`]'s escapes.
pub open spec fn debug_quoted(s: Seq<char>) -> Seq<char> {
    seq!['"'] + debug_chars(s) + seq!['"']
}

fn hex_digit_of(d: u32) -> (r: char)
    requires
        d < 16,
    ensures
        r == hex_digit_char(d as int),
{
    let digits: [char; 16] = [
        '0', '1', '2', '3', '4', '5', '6', '7', '8', '9', 'a', 'b', 'c', 'd', 'e', 'f',
    ];
    digits[d as usize]
}

fn push_debug_char(out: &mut Vec<char>, c: char)
    ensures
        final(out)@ == old(out)@ + debug_char(c),
{
    let ghost before = out@;
    let v = c as u32;
    if c == '\0' {
        out.push('\\');
        out.push('0');
    } else if c == '\t' {
        out.push('\\');
        out.push('t');
    } else if c == '\r' {
        out.push('\\');
        out.push('r');
    } else if c == '\n' {
        out.push('\\');
        out.push('n');
    } else if c == '\\' {
        out.push('\\');
        out.push('\\');
    } else if c == '"' {
        out.push('\\');
        out.push('"');
    } else if v < 0x20 || v == 0x7f {
        out.push('\\');
        out.push('u');
        out.push('{');
        if v < 16 {
            out.push(hex_digit_of(v));
        } else {
            out.push(hex_digit_of(v / 16));
            out.push(hex_digit_of(v % 16));
        }
        out.push('}');
    } else {
        out.push(c);
    }
    assert(out@ =~= before + debug_char(c));
}

/// A string as `{:?}` writes it, as [`debug_quoted`] says.
pub fn debug_quote(s: &str) -> (r: String)
    ensures
        r@ == debug_quoted(s@),
{
    let cs = chars_of(s);
    let mut out: Vec<char> = Vec::new();
    out.push('"');
    let mut i: usize = 0;
    proof {
        assert(cs@.take(0) =~= Seq::<char>::empty());
        assert(out@ =~= seq!['"'] + debug_chars(cs@.take(0)));
    }
    while i < cs.len()
        invariant
            i <= cs.len(),
            out@ == seq!['"'] + debug_chars(cs@.take(i as int)),
        decreases cs.len() - i,
    {
        push_debug_char(&mut out, cs[i]);
        proof {
            assert(cs@.take(i + 1).drop_last() =~= cs@.take(i as int));
            assert(out@ =~= seq!['"'] + debug_chars(cs@.take(i + 1)));
        }
        i = i + 1;
    }
    out.push('"');
    proof {
        assert(cs@.take(i as int) =~= s@);
        assert(out@ =~= debug_quoted(s@));
    }
    string_from_chars(out.as_slice())
}

/// The first error that reading the digits `b[i..]` onto `acc` meets, for
/// a magnitude of at most `max` (`over` when it is passed); empty when
/// there is none.
pub open spec fn digits_error(b: Seq<char>, i: int, acc: int, max: int, over: Seq<char>) -> Seq<char>
    decreases b.len() - i,
{
    if i >= b.len() || i < 0 {
        Seq::empty()
    } else if !is_digit(b[i]) {
        "invalid digit found in string"@
    } else if acc * 10 + digit_value(b[i]) > max {
        over
    } else {
        digits_error(b, i + 1, acc * 10 + digit_value(b[i]), max, over)
    }
}

/// The message of the error `i32::from_str` reports for a text (empty
/// when the text reads): an empty text, a sign alone or a non-digit, and a
/// value beyond the range on either side, whichever comes first.
pub open spec fn spec_i32_error(s: Seq<char>) -> Seq<char> {
    if s.len() == 0 {
        "cannot parse integer from empty string"@
    } else {
        let body = if s[0] == '+' || s[0] == '-' {
            s.drop_first()
        } else {
            s
        };
        if body.len() == 0 {
            "invalid digit found in string"@
        } else if s[0] == '-' {
            digits_error(body, 0, 0, 0x8000_0000, "number too small to fit in target type"@)
        } else {
            digits_error(body, 0, 0, 0x7fff_ffff, "number too large to fit in target type"@)
        }
    }
}

/// The message of the error `i32::from_str` reports for a text, as
/// [`spec_i32_error`] says.
pub fn i32_error_message(s: &[char]) -> (r: &'static str)
    ensures
        r@ == spec_i32_error(s@),
{
    if s.len() == 0 {
        return "cannot parse integer from empty string";
    }
    let negative = s[0] == '-';
    let start: usize = if s[0] == '+' || s[0] == '-' {
        1
    } else {
        0
    };
    let ghost body = if s@[0] == '+' || s@[0] == '-' {
        s@.drop_first()
    } else {
        s@
    };
    assert(body =~= s@.skip(start as int));
    if s.len() == start {
        return "invalid digit found in string";
    }
    let max: u64 = if negative {
        0x8000_0000
    } else {
        0x7fff_ffff
    };
    let over: &'static str = if negative {
        "number too small to fit in target type"
    } else {
        "number too large to fit in target type"
    };
    let mut acc: u64 = 0;
    let mut i: usize = start;
    while i < s.len()
        invariant
            start <= i <= s.len(),
            body =~= s@.skip(start as int),
            acc <= max,
            max <= 0x8000_0000,
            body.len() > 0,
            spec_i32_error(s@) == digits_error(body, i - start, acc as int, max as int, over@),
        decreases s.len() - i,
    {
        let c = s[i];
        if !('0' <= c && c <= '9') {
            return "invalid digit found in string";
        }
        let d = c as u64 - '0' as u64;
        if acc * 10 + d > max {
            return over;
        }
        acc = acc * 10 + d;
        i = i + 1;
    }
    proof {
        reveal_strlit("");
        assert(""@ =~= Seq::<char>::empty());
    }
    ""
}

} // verus!
