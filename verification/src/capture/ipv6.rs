//! IPv6 addresses in text, as the standard library's `Ipv6Addr` parser
//! reads them: eight colon-separated groups of one to four hex digits, or
//! fewer around one `::` standing for at least one zero group, with an
//! optional dotted IPv4 address as the last two groups.

use vstd::prelude::*;
use crate::capture::endpoint::{parse_ipv4_chars, spec_ipv4};
use crate::text::{split_chars, split_seq};

verus! {

pub open spec fn is_hex(c: char) -> bool {
    ('0' <= c && c <= '9') || ('a' <= c && c <= 'f') || ('A' <= c && c <= 'F')
}

pub open spec fn hex_digit(c: char) -> int {
    if '0' <= c && c <= '9' {
        c as int - '0' as int
    } else if 'a' <= c && c <= 'f' {
        c as int - 'a' as int + 10
    } else {
        c as int - 'A' as int + 10
    }
}

/// The number a run of hex digits spells.
pub open spec fn hex_value(t: Seq<char>) -> int
    decreases t.len(),
{
    if t.len() == 0 {
        0
    } else {
        hex_value(t.drop_last()) * 16 + hex_digit(t.last())
    }
}

/// A group: one to four hex digits.
pub open spec fn hex_group(t: Seq<char>) -> Option<int> {
    if 1 <= t.len() <= 4 && forall|i: int| 0 <= i < t.len() ==> is_hex(#[trigger] t[i]) {
        Some(hex_value(t))
    } else {
        None
    }
}

/// The values of groups that are all hex groups.
pub open spec fn hex_groups(toks: Seq<Seq<char>>) -> Option<Seq<int>>
    decreases toks.len(),
{
    if toks.len() == 0 {
        Some(Seq::empty())
    } else {
        match (hex_groups(toks.drop_last()), hex_group(toks.last())) {
            (Some(g), Some(v)) => Some(g.push(v)),
            _ => None,
        }
    }
}

proof fn lemma_hex_groups_prefix(toks: Seq<Seq<char>>, k: int)
    requires
        0 <= k <= toks.len(),
        hex_groups(toks) is Some,
    ensures
        hex_groups(toks.take(k)) is Some,
    decreases toks.len(),
{
    if k < toks.len() {
        assert(toks.drop_last().take(k) =~= toks.take(k));
        lemma_hex_groups_prefix(toks.drop_last(), k);
    } else {
        assert(toks.take(k) =~= toks);
    }
}

/// The values of colon-separated groups; the last one may be a dotted
/// IPv4 address when `v4_last`, giving two groups.
pub open spec fn groups_of(toks: Seq<Seq<char>>, v4_last: bool) -> Option<Seq<int>> {
    if toks.len() == 0 {
        Some(Seq::empty())
    } else {
        match hex_groups(toks.drop_last()) {
            Some(g) => match hex_group(toks.last()) {
                Some(v) => Some(g.push(v)),
                None => if v4_last && spec_ipv4(toks.last()) is Some {
                    let a = spec_ipv4(toks.last())->Some_0 as int;
                    Some(g.push(a / 0x1_0000).push(a % 0x1_0000))
                } else {
                    None
                },
            },
            None => None,
        }
    }
}

/// The groups of a text that may be empty.
pub open spec fn part_groups(t: Seq<char>, v4_last: bool) -> Option<Seq<int>> {
    if t.len() == 0 {
        Some(Seq::empty())
    } else {
        groups_of(split_seq(t, ':'), v4_last)
    }
}

/// Where the first `::` starts.
pub open spec fn first_double_colon(s: Seq<char>) -> Option<int>
    decreases s.len(),
{
    if s.len() < 2 {
        None
    } else if s[0] == ':' && s[1] == ':' {
        Some(0)
    } else {
        match first_double_colon(s.drop_first()) {
            Some(k) => Some(k + 1),
            None => None,
        }
    }
}

/// The 128-bit value of 16-bit groups, most significant first.
pub open spec fn groups_value(g: Seq<int>) -> int
    decreases g.len(),
{
    if g.len() == 0 {
        0
    } else {
        groups_value(g.drop_last()) * 0x1_0000 + g.last()
    }
}

/// The eight groups an IPv6 text stands for.
pub open spec fn spec_ipv6_groups(s: Seq<char>) -> Option<Seq<int>> {
    match first_double_colon(s) {
        None => match groups_of(split_seq(s, ':'), true) {
            Some(g) => if g.len() == 8 {
                Some(g)
            } else {
                None
            },
            None => None,
        },
        Some(k) => match (part_groups(s.take(k), false), part_groups(s.skip(k + 2), true)) {
            (Some(h), Some(t)) => if h.len() + t.len() <= 7 {
                Some(h + Seq::new((8 - h.len() - t.len()) as nat, |i: int| 0int) + t)
            } else {
                None
            },
            _ => None,
        },
    }
}

/// The value of an IPv6 address text.
pub open spec fn spec_ipv6(s: Seq<char>) -> Option<u128> {
    match spec_ipv6_groups(s) {
        Some(g) => Some(groups_value(g) as u128),
        None => None,
    }
}

fn hex_digit_exec(c: char) -> (r: Option<u32>)
    ensures
        match r {
            Some(v) => is_hex(c) && v == hex_digit(c),
            None => !is_hex(c),
        },
{
    if '0' <= c && c <= '9' {
        Some(c as u32 - '0' as u32)
    } else if 'a' <= c && c <= 'f' {
        Some(c as u32 - 'a' as u32 + 10)
    } else if 'A' <= c && c <= 'F' {
        Some(c as u32 - 'A' as u32 + 10)
    } else {
        None
    }
}

fn parse_hex_group(t: &[char]) -> (r: Option<u32>)
    ensures
        match r {
            Some(v) => hex_group(t@) == Some(v as int) && v < 0x1_0000,
            None => hex_group(t@) is None,
        },
{
    if t.len() < 1 || t.len() > 4 {
        return None;
    }
    let mut v: u32 = 0;
    let mut i: usize = 0;
    while i < t.len()
        invariant
            i <= t.len() <= 4,
            forall|j: int| 0 <= j < i ==> is_hex(#[trigger] t@[j]),
            v == hex_value(t@.take(i as int)),
            v < pow16(i as nat),
        decreases t.len() - i,
    {
        let d = match hex_digit_exec(t[i]) {
            Some(d) => d,
            None => return None,
        };
        proof {
            assert(t@.take(i + 1).drop_last() =~= t@.take(i as int));
            reveal_with_fuel(pow16, 5);
        }
        v = v * 16 + d;
        i = i + 1;
    }
    proof {
        assert(t@.take(t.len() as int) =~= t@);
        reveal_with_fuel(pow16, 5);
    }
    Some(v)
}

/// `16` to the power `n`.
pub open spec fn pow16(n: nat) -> nat
    decreases n,
{
    if n == 0 {
        1
    } else {
        pow16((n - 1) as nat) * 16
    }
}

/// Reads colon-separated pieces as groups, as [`groups_of`] says.
fn parse_groups(toks: &Vec<Vec<char>>, v4_last: bool) -> (r: Option<Vec<u32>>)
    ensures
        match r {
            Some(g) => {
                &&& groups_of(toks@.map_values(|t: Vec<char>| t@), v4_last) matches Some(s) && s.len() == g.len()
                    && forall|i: int| 0 <= i < g.len() ==> s[i] == g@[i] as int
                &&& forall|i: int| 0 <= i < g.len() ==> g@[i] < 0x1_0000
            },
            None => groups_of(toks@.map_values(|t: Vec<char>| t@), v4_last) is None,
        },
{
    let ghost ts = toks@.map_values(|t: Vec<char>| t@);
    if toks.len() == 0 {
        return Some(Vec::new());
    }
    let n = toks.len() - 1;
    let mut g: Vec<u32> = Vec::new();
    let mut i: usize = 0;
    assert(ts.drop_last().take(0) =~= Seq::<Seq<char>>::empty());
    while i < n
        invariant
            n + 1 == toks.len(),
            ts == toks@.map_values(|t: Vec<char>| t@),
            i <= n,
            hex_groups(ts.drop_last().take(i as int)) matches Some(s) && s.len() == g.len()
                && forall|j: int| 0 <= j < g.len() ==> s[j] == g@[j] as int,
            forall|j: int| 0 <= j < g.len() ==> g@[j] < 0x1_0000,
        decreases n - i,
    {
        proof {
            assert(ts.drop_last().take(i + 1).drop_last() =~= ts.drop_last().take(i as int));
            assert(ts.drop_last().take(i + 1).last() == toks@[i as int]@);
        }
        let v = match parse_hex_group(&toks[i]) {
            Some(v) => v,
            None => {
                proof {
                    if hex_groups(ts.drop_last()) is Some {
                        lemma_hex_groups_prefix(ts.drop_last(), i + 1);
                    }
                }
                return None;
            },
        };
        g.push(v);
        i = i + 1;
    }
    proof {
        assert(ts.drop_last().take(n as int) =~= ts.drop_last());
        assert(ts.last() == toks@[n as int]@);
    }
    match parse_hex_group(&toks[n]) {
        Some(v) => {
            g.push(v);
            Some(g)
        },
        None => {
            if !v4_last {
                return None;
            }
            let a = match parse_ipv4_chars(&toks[n]) {
                Some(a) => a,
                None => return None,
            };
            g.push(a / 0x1_0000);
            g.push(a % 0x1_0000);
            Some(g)
        },
    }
}

fn part_groups_exec(t: &[char], v4_last: bool) -> (r: Option<Vec<u32>>)
    ensures
        match r {
            Some(g) => {
                &&& part_groups(t@, v4_last) matches Some(s) && s.len() == g.len() && forall|i: int|
                    0 <= i < g.len() ==> s[i] == g@[i] as int
                &&& forall|i: int| 0 <= i < g.len() ==> g@[i] < 0x1_0000
            },
            None => part_groups(t@, v4_last) is None,
        },
{
    if t.len() == 0 {
        return Some(Vec::new());
    }
    let toks = split_chars(t, ':');
    proof {
        assert(toks@.map_values(|x: Vec<char>| x@) =~= split_seq(t@, ':'));
    }
    parse_groups(&toks, v4_last)
}

fn find_double_colon(cs: &[char]) -> (r: Option<usize>)
    ensures
        match r {
            Some(k) => first_double_colon(cs@) == Some(k as int) && k + 2 <= cs.len(),
            None => first_double_colon(cs@) is None,
        },
{
    let mut i: usize = 0;
    assert(cs@.skip(0) =~= cs@);
    while i < cs.len() && cs.len() - i > 1
        invariant
            i <= cs.len(),
            first_double_colon(cs@) == match first_double_colon(cs@.skip(i as int)) {
                Some(k) => Some(k + i),
                None => None,
            },
        decreases cs.len() - i,
    {
        if cs[i] == ':' && cs[i + 1] == ':' {
            return Some(i);
        }
        assert(cs@.skip(i as int).drop_first() =~= cs@.skip(i + 1));
        i = i + 1;
    }
    None
}

proof fn lemma_groups_value_bound(g: Seq<int>)
    requires
        forall|i: int| 0 <= i < g.len() ==> 0 <= #[trigger] g[i] < 0x1_0000,
    ensures
        0 <= groups_value(g) < pow65536(g.len()),
    decreases g.len(),
{
    if g.len() > 0 {
        lemma_groups_value_bound(g.drop_last());
        let v = groups_value(g.drop_last());
        let p = pow65536((g.len() - 1) as nat);
        assert(v * 0x1_0000 + g.last() < p * 0x1_0000) by (nonlinear_arith)
            requires
                0 <= v < p,
                0 <= g.last() < 0x1_0000,
        ;
        assert(v * 0x1_0000 + g.last() >= 0) by (nonlinear_arith)
            requires
                0 <= v,
                0 <= g.last(),
        ;
    }
}

/// `65536` to the power `n`.
pub open spec fn pow65536(n: nat) -> nat
    decreases n,
{
    if n == 0 {
        1
    } else {
        pow65536((n - 1) as nat) * 0x1_0000
    }
}

/// The integer values of 16-bit groups.
pub open spec fn ints(g: Seq<u32>) -> Seq<int> {
    g.map_values(|x: u32| x as int)
}

/// The eight groups of an IPv6 address text, as [`spec_ipv6_groups`] says.
fn ipv6_groups(cs: &[char]) -> (r: Option<Vec<u32>>)
    ensures
        match r {
            Some(g) => spec_ipv6_groups(cs@) == Some(ints(g@)) && g.len() == 8 && forall|i: int|
                0 <= i < 8 ==> g@[i] < 0x1_0000,
            None => spec_ipv6_groups(cs@) is None,
        },
{
    match find_double_colon(cs) {
        None => {
            let toks = split_chars(cs, ':');
            proof {
                assert(toks@.map_values(|x: Vec<char>| x@) =~= split_seq(cs@, ':'));
            }
            match parse_groups(&toks, true) {
                Some(g) => {
                    if g.len() != 8 {
                        return None;
                    }
                    proof {
                        let s = groups_of(split_seq(cs@, ':'), true)->Some_0;
                        assert(s =~= ints(g@));
                    }
                    Some(g)
                },
                None => None,
            }
        },
        Some(k) => {
            let head = vstd::slice::slice_subrange(cs, 0, k);
            let tail = vstd::slice::slice_subrange(cs, k + 2, cs.len());
            proof {
                assert(head@ =~= cs@.take(k as int));
                assert(tail@ =~= cs@.skip(k + 2));
            }
            let h = match part_groups_exec(head, false) {
                Some(h) => h,
                None => return None,
            };
            let t = match part_groups_exec(tail, true) {
                Some(t) => t,
                None => return None,
            };
            if h.len() > 7 || t.len() > 7 - h.len() {
                return None;
            }
            let ghost hs = part_groups(cs@.take(k as int), false)->Some_0;
            let ghost ts = part_groups(cs@.skip(k + 2), true)->Some_0;
            assert(hs =~= ints(h@));
            assert(ts =~= ints(t@));
            let mut g: Vec<u32> = Vec::new();
            let mut i: usize = 0;
            while i < h.len()
                invariant
                    i <= h.len(),
                    g@ == h@.take(i as int),
                decreases h.len() - i,
            {
                g.push(h[i]);
                assert(h@.take(i + 1) =~= h@.take(i as int).push(h@[i as int]));
                i = i + 1;
            }
            assert(h@.take(h.len() as int) =~= h@);
            let zeros = 8 - h.len() - t.len();
            let mut z: usize = 0;
            while z < zeros
                invariant
                    z <= zeros,
                    zeros == 8 - h.len() - t.len(),
                    g@ == h@ + Seq::new(z as nat, |j: int| 0u32),
                decreases zeros - z,
            {
                g.push(0);
                assert(h@ + Seq::new((z + 1) as nat, |j: int| 0u32) =~= (h@ + Seq::new(
                    z as nat,
                    |j: int| 0u32,
                )).push(0));
                z = z + 1;
            }
            let mut j: usize = 0;
            while j < t.len()
                invariant
                    j <= t.len(),
                    zeros == 8 - h.len() - t.len(),
                    g@ == h@ + Seq::new(zeros as nat, |x: int| 0u32) + t@.take(j as int),
                decreases t.len() - j,
            {
                g.push(t[j]);
                assert(h@ + Seq::new(zeros as nat, |x: int| 0u32) + t@.take(j + 1) =~= (h@
                    + Seq::new(zeros as nat, |x: int| 0u32) + t@.take(j as int)).push(t@[j as int]));
                j = j + 1;
            }
            assert(t@.take(t.len() as int) =~= t@);
            proof {
                assert(ints(g@) =~= hs + Seq::new((8 - hs.len() - ts.len()) as nat, |i: int| 0int)
                    + ts);
            }
            Some(g)
        },
    }
}

/// Reads an IPv6 address text, as [`spec_ipv6`] says.
pub fn parse_ipv6_chars(cs: &[char]) -> (r: Option<u128>)
    ensures
        r == spec_ipv6(cs@),
{
    let groups = match ipv6_groups(cs) {
        Some(g) => g,
        None => return None,
    };
    let ghost gs = ints(groups@);
    let mut v: u128 = 0;
    let mut i: usize = 0;
    proof {
        assert(gs.take(0) =~= Seq::<int>::empty());
    }
    while i < 8
        invariant
            i <= 8,
            groups.len() == 8,
            gs == ints(groups@),
            forall|j: int| 0 <= j < 8 ==> groups@[j] < 0x1_0000,
            v == groups_value(gs.take(i as int)),
        decreases 8 - i,
    {
        proof {
            assert(gs.take(i + 1).drop_last() =~= gs.take(i as int));
            lemma_groups_value_bound(gs.take(i + 1));
            lemma_pow65536_grows((i + 1) as nat, 8);
            reveal_with_fuel(pow65536, 9);
        }
        v = v * 0x1_0000 + groups[i] as u128;
        i = i + 1;
    }
    proof {
        assert(gs.take(8) =~= gs);
        lemma_groups_value_bound(gs);
        reveal_with_fuel(pow65536, 9);
    }
    Some(v)
}

proof fn lemma_pow65536_grows(a: nat, b: nat)
    requires
        a <= b,
    ensures
        pow65536(a) <= pow65536(b),
    decreases b,
{
    if a < b {
        lemma_pow65536_grows(a, (b - 1) as nat);
    }
}

proof fn lemma_groups_value_concat(a: Seq<int>, b: Seq<int>)
    ensures
        groups_value(a + b) == groups_value(a) * pow65536(b.len()) + groups_value(b),
    decreases b.len(),
{
    if b.len() == 0 {
        assert(a + b =~= a);
        assert(pow65536(0) == 1);
        assert(groups_value(b) == 0);
        assert(groups_value(a) * 1 == groups_value(a));
    } else {
        assert((a + b).drop_last() =~= a + b.drop_last());
        assert((a + b).last() == b.last());
        lemma_groups_value_concat(a, b.drop_last());
        let x = groups_value(a);
        let p = pow65536((b.len() - 1) as nat);
        let y = groups_value(b.drop_last());
        assert(groups_value(a + b) == groups_value(a + b.drop_last()) * 0x1_0000 + b.last());
        assert(groups_value(b) == y * 0x1_0000 + b.last());
        assert(pow65536(b.len()) == p * 0x1_0000);
        assert((x * p + y) * 0x1_0000 == x * (p * 0x1_0000) + y * 0x1_0000) by (nonlinear_arith);
    }
}

proof fn lemma_groups_value_zeros(n: nat)
    ensures
        groups_value(Seq::new(n, |i: int| 0int)) == 0,
    decreases n,
{
    if n > 0 {
        assert(Seq::new(n, |i: int| 0int).drop_last() =~= Seq::new((n - 1) as nat, |i: int| 0int));
        lemma_groups_value_zeros((n - 1) as nat);
    }
}

/// In an address text with `::`, the groups before it are the high-order
/// groups of the address and the groups after it the low-order ones, the
/// zero groups `::` stands for lying between: the value is the head's
/// groups shifted up to the top of the eight, plus the tail's groups.
pub proof fn law_ipv6_double_colon_places_groups(s: Seq<char>)
    requires
        first_double_colon(s) is Some,
        part_groups(s.take(first_double_colon(s)->Some_0), false) is Some,
        part_groups(s.skip(first_double_colon(s)->Some_0 + 2), true) is Some,
        part_groups(s.take(first_double_colon(s)->Some_0), false)->Some_0.len() + part_groups(
            s.skip(first_double_colon(s)->Some_0 + 2),
            true,
        )->Some_0.len() <= 7,
    ensures
        ({
            let k = first_double_colon(s)->Some_0;
            let head = part_groups(s.take(k), false)->Some_0;
            let tail = part_groups(s.skip(k + 2), true)->Some_0;
            spec_ipv6(s) == Some(
                (groups_value(head) * pow65536((8 - head.len()) as nat) + groups_value(
                    tail,
                )) as u128,
            )
        }),
{
    let k = first_double_colon(s)->Some_0;
    let h = part_groups(s.take(k), false)->Some_0;
    let t = part_groups(s.skip(k + 2), true)->Some_0;
    let z = (8 - h.len() - t.len()) as nat;
    let zs = Seq::new(z, |i: int| 0int);
    lemma_groups_value_concat(h + zs, t);
    lemma_groups_value_concat(h, zs);
    lemma_groups_value_zeros(z);
    lemma_pow65536_add(z, t.len());
    assert(h + zs + t == h + Seq::new((8 - h.len() - t.len()) as nat, |i: int| 0int) + t);
    let x = groups_value(h);
    assert((x * pow65536(z) + 0) * pow65536(t.len()) == x * (pow65536(z) * pow65536(t.len())))
        by (nonlinear_arith);
}

proof fn lemma_pow65536_add(a: nat, b: nat)
    ensures
        pow65536(a) * pow65536(b) == pow65536(a + b),
    decreases b,
{
    if b == 0 {
        assert(pow65536(0) == 1);
        assert(a + b == a);
    } else {
        lemma_pow65536_add(a, (b - 1) as nat);
        assert((a + b - 1) as nat == a + (b - 1) as nat);
        assert(pow65536(a + b) == pow65536((a + (b - 1)) as nat) * 0x1_0000);
        assert(pow65536(b) == pow65536((b - 1) as nat) * 0x1_0000);
        assert(pow65536(a) * (pow65536((b - 1) as nat) * 0x1_0000) == (pow65536(a) * pow65536(
            (b - 1) as nat,
        )) * 0x1_0000) by (nonlinear_arith);
    }
}

} // verus!
