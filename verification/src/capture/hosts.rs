//! Which hosts to keep packets of: a list of CIDR ranges.

use vstd::prelude::*;
use crate::capture::endpoint::{parse_ipv4_chars, spec_ipv4, IpAddress};
use crate::capture::ipv6::{parse_ipv6_chars, spec_ipv6};
use crate::error::DecodeError;
use crate::text::{
    chars_of, concat_str, debug_quote, debug_quoted, decimal, find_char, first_index_of, format_u64, is_digit, lemma_split_nonempty, parse_uint_result, spec_uint_result, split_chars,
    split_seq, string_from_chars, trim_chars, trimmed,
};

verus! {

/// An IPv4 or IPv6 network: the addresses whose bits under the mask are the
/// network's.
#[derive(Clone, Copy, Debug, PartialEq, Eq, Structural)]
pub enum CidrRange {
    V4 { network: u32, mask: u32 },
    V6 { network: u128, mask: u128 },
}

/// The address a text names: IPv4 first, else IPv6.
pub open spec fn spec_ip(s: Seq<char>) -> Option<IpAddress> {
    match spec_ipv4(s) {
        Some(a) => Some(IpAddress::V4(a)),
        None => match spec_ipv6(s) {
            Some(a) => Some(IpAddress::V6(a)),
            None => None,
        },
    }
}

/// The mask of the first `prefix` bits of an IPv4 address.
pub open spec fn mask_u32(prefix: int) -> u32 {
    if prefix == 0 {
        0
    } else {
        (0xffff_ffffu32 << ((32 - prefix) as u32)) as u32
    }
}

/// The mask of the first `prefix` bits of an IPv6 address.
pub open spec fn mask_u128(prefix: int) -> u128 {
    if prefix == 0 {
        0
    } else {
        (0xffff_ffff_ffff_ffff_ffff_ffff_ffff_ffffu128 << ((128 - prefix) as u32)) as u128
    }
}

/// The network an `address/prefix` text names, or the error's message: a
/// missing `/`, an address that does not read, a prefix that is not a
/// `u8`, or one longer than the address.
pub open spec fn spec_cidr(v: Seq<char>) -> Result<CidrRange, Seq<char>> {
    match first_index_of(v, '/') {
        None => Err("missing /prefix"@),
        Some(i) => match spec_ip(v.take(i)) {
            None => Err("invalid IP address: invalid IP address syntax"@),
            Some(ip) => match spec_uint_result(v.skip(i + 1), 255) {
                Err(m) => Err("invalid prefix length: "@ + m),
                Ok(prefix) => match ip {
                    IpAddress::V4(a) => if prefix > 32 {
                        Err("IPv4 prefix length must be <= 32"@)
                    } else {
                        Ok(CidrRange::V4 { network: a & mask_u32(prefix), mask: mask_u32(prefix) })
                    },
                    IpAddress::V6(a) => if prefix > 128 {
                        Err("IPv6 prefix length must be <= 128"@)
                    } else {
                        Ok(
                            CidrRange::V6 {
                                network: a & mask_u128(prefix),
                                mask: mask_u128(prefix),
                            },
                        )
                    },
                },
            },
        },
    }
}

fn prefix_mask_u32(prefix: u8) -> (r: u32)
    requires
        prefix <= 32,
    ensures
        r == mask_u32(prefix as int),
{
    if prefix == 0 {
        0
    } else {
        0xffff_ffffu32 << ((32 - prefix) as u32)
    }
}

fn prefix_mask_u128(prefix: u8) -> (r: u128)
    requires
        prefix <= 128,
    ensures
        r == mask_u128(prefix as int),
{
    if prefix == 0 {
        0
    } else {
        0xffff_ffff_ffff_ffff_ffff_ffff_ffff_ffffu128 << ((128 - prefix) as u32)
    }
}

impl CidrRange {
    pub open spec fn spec_contains(self, ip: IpAddress) -> bool {
        match (self, ip) {
            (CidrRange::V4 { network, mask }, IpAddress::V4(a)) => a & mask == network,
            (CidrRange::V6 { network, mask }, IpAddress::V6(a)) => a & mask == network,
            _ => false,
        }
    }

    /// Whether the address is in the network; an address of the other
    /// family never is.
    pub fn contains(&self, ip: IpAddress) -> (r: bool)
        ensures
            r == self.spec_contains(ip),
    {
        match (*self, ip) {
            (CidrRange::V4 { network, mask }, IpAddress::V4(a)) => a & mask == network,
            (CidrRange::V6 { network, mask }, IpAddress::V6(a)) => a & mask == network,
            _ => false,
        }
    }

    /// Reads an `address/prefix` text, as [`spec_cidr`] says.
    pub fn from_str(value: &str) -> (r: Result<CidrRange, String>)
        ensures
            match r {
                Ok(c) => spec_cidr(value@) == Ok::<CidrRange, Seq<char>>(c),
                Err(m) => spec_cidr(value@) == Err::<CidrRange, Seq<char>>(m@),
            },
    {
        proof {
            reveal_strlit("missing /prefix");
        }
        let cs = chars_of(value);
        let slash = match find_char(&cs, '/') {
            Some(i) => i,
            None => return Err(String::from_str("missing /prefix")),
        };
        let address = vstd::slice::slice_subrange(cs.as_slice(), 0, slash);
        let prefix_text = vstd::slice::slice_subrange(cs.as_slice(), slash + 1, cs.len());
        proof {
            assert(address@ =~= value@.take(slash as int));
            assert(prefix_text@ =~= value@.skip(slash + 1));
        }
        let ip = match parse_ipv4_chars(address) {
            Some(a) => IpAddress::V4(a),
            None => match parse_ipv6_chars(address) {
                Some(a) => IpAddress::V6(a),
                None => return Err(String::from_str("invalid IP address: invalid IP address syntax")),
            },
        };
        let prefix = match parse_uint_result(prefix_text, 255) {
            Ok(p) => p as u8,
            Err(m) => return Err(concat_str("invalid prefix length: ", m)),
        };
        match ip {
            IpAddress::V4(a) => {
                if prefix > 32 {
                    return Err(String::from_str("IPv4 prefix length must be <= 32"));
                }
                let mask = prefix_mask_u32(prefix);
                Ok(CidrRange::V4 { network: a & mask, mask })
            },
            IpAddress::V6(a) => {
                if prefix > 128 {
                    return Err(String::from_str("IPv6 prefix length must be <= 128"));
                }
                let mask = prefix_mask_u128(prefix);
                Ok(CidrRange::V6 { network: a & mask, mask })
            },
        }
    }
}

/// A set of networks; a host is kept when any of them holds it.
#[derive(Debug)]
pub struct HostFilter {
    ranges: Vec<CidrRange>,
}

/// The entry of a hosts-file line: the text before any `#`, trimmed.
pub open spec fn line_entry(line: Seq<char>) -> Seq<char> {
    trimmed(split_seq(line, '#')[0])
}

/// The message for an entry that does not read, the entry written as
/// `{:?}` writes it.
pub open spec fn entry_error(prefix: Seq<char>, entry: Seq<char>, message: Seq<char>) -> Seq<char> {
    prefix + "invalid CIDR entry "@ + debug_quoted(entry) + ": "@ + message
}

/// What reading the lines `lines[i..]` of a hosts text named `source`
/// gives: the networks of the lines with an entry, in order, or the
/// message for the first entry that does not read, with the file name and
/// line number.
pub open spec fn lines_ranges(source: Seq<char>, lines: Seq<Seq<char>>, i: int) -> Result<
    Seq<CidrRange>,
    Seq<char>,
>
    decreases lines.len() - i,
{
    if i >= lines.len() || i < 0 {
        Ok(Seq::empty())
    } else {
        let entry = line_entry(lines[i]);
        if entry.len() == 0 {
            lines_ranges(source, lines, i + 1)
        } else {
            match spec_cidr(entry) {
                Err(m) => Err(
                    entry_error(source + ":"@ + decimal(i + 1) + " "@, entry, m),
                ),
                Ok(c) => match lines_ranges(source, lines, i + 1) {
                    Ok(rest) => Ok(seq![c] + rest),
                    Err(e) => Err(e),
                },
            }
        }
    }
}

/// What reading a list of CIDR texts gives: their networks, or the message
/// for the first that does not read.
pub open spec fn cidrs_ranges(cidrs: Seq<Seq<char>>, i: int) -> Result<Seq<CidrRange>, Seq<char>>
    decreases cidrs.len() - i,
{
    if i >= cidrs.len() || i < 0 {
        Ok(Seq::empty())
    } else {
        match spec_cidr(cidrs[i]) {
            Err(m) => Err(entry_error(Seq::empty(), cidrs[i], m)),
            Ok(c) => match cidrs_ranges(cidrs, i + 1) {
                Ok(rest) => Ok(seq![c] + rest),
                Err(e) => Err(e),
            },
        }
    }
}

/// The entries of the lines `lines[..n]`: each line's entry
/// ([`line_entry`]) when not empty.
pub open spec fn entries_of(lines: Seq<Seq<char>>, n: int) -> Seq<Seq<char>>
    decreases n,
{
    if n <= 0 || n > lines.len() {
        Seq::empty()
    } else {
        let prev = entries_of(lines, n - 1);
        if line_entry(lines[n - 1]).len() == 0 {
            prev
        } else {
            prev.push(line_entry(lines[n - 1]))
        }
    }
}

/// The entries of a hosts text, in order: the text before any `#` of each
/// line, trimmed, when not empty.
pub fn file_entries(content: &str) -> (r: Vec<String>)
    ensures
        r@.map_values(|t: String| t@) == entries_of(
            split_seq(content@, '\n'),
            split_seq(content@, '\n').len() as int,
        ),
{
    let cs = chars_of(content);
    let lines = split_chars(&cs, '\n');
    let ghost ls = split_seq(content@, '\n');
    let mut out: Vec<String> = Vec::new();
    let mut i: usize = 0;
    assert(out@.map_values(|t: String| t@) =~= entries_of(ls, 0));
    while i < lines.len()
        invariant
            i <= lines.len(),
            lines.len() == ls.len(),
            ls == split_seq(content@, '\n'),
            forall|j: int| 0 <= j < lines.len() ==> (#[trigger] lines@[j])@ == ls[j],
            out@.map_values(|t: String| t@) == entries_of(ls, i as int),
        decreases lines.len() - i,
    {
        let pieces = split_chars(&lines[i], '#');
        proof {
            lemma_split_nonempty(lines@[i as int]@, '#');
        }
        let entry_chars = trim_chars(&pieces[0]);
        if entry_chars.len() > 0 {
            let ghost before = out@;
            out.push(string_from_chars(&entry_chars));
            assert(out@.map_values(|t: String| t@) =~= before.map_values(|t: String| t@).push(
                line_entry(ls[i as int]),
            ));
        }
        i = i + 1;
    }
    out
}

impl HostFilter {
    /// The networks, in order.
    pub closed spec fn ranges(&self) -> Seq<CidrRange> {
        self.ranges@
    }

    pub open spec fn spec_contains(&self, ip: IpAddress) -> bool {
        exists|i: int| 0 <= i < self.ranges().len() && #[trigger] self.ranges()[i].spec_contains(ip)
    }

    /// The networks of a hosts text (one CIDR range per line, `#` starting
    /// a comment, blank lines skipped), as [`lines_ranges`] says; `source`
    /// names the text in error messages.
    #[verifier::spinoff_prover]
    #[verifier::rlimit(40)]
    pub fn from_text(content: &str, source: &str) -> (r: Result<HostFilter, DecodeError>)
        ensures
            match r {
                Ok(f) => lines_ranges(source@, split_seq(content@, '\n'), 0) == Ok::<
                    Seq<CidrRange>,
                    Seq<char>,
                >(f.ranges()),
                Err(e) => lines_ranges(source@, split_seq(content@, '\n'), 0) == Err::<
                    Seq<CidrRange>,
                    Seq<char>,
                >(e.0@),
            },
    {
        let cs = chars_of(content);
        let lines = split_chars(&cs, '\n');
        let ghost ls = split_seq(content@, '\n');
        let mut ranges: Vec<CidrRange> = Vec::new();
        let mut i: usize = 0;
        while i < lines.len()
            invariant
                i <= lines.len(),
                lines.len() == ls.len(),
                ls == split_seq(content@, '\n'),
                forall|j: int| 0 <= j < lines.len() ==> (#[trigger] lines@[j])@ == ls[j],
                lines_ranges(source@, ls, 0) == match lines_ranges(source@, ls, i as int) {
                    Ok(rest) => Ok(ranges@ + rest),
                    Err(e) => Err::<Seq<CidrRange>, Seq<char>>(e),
                },
            decreases lines.len() - i,
        {
            let pieces = split_chars(&lines[i], '#');
            proof {
                lemma_split_nonempty(lines@[i as int]@, '#');
            }
            let entry_chars = trim_chars(&pieces[0]);
            let entry = string_from_chars(&entry_chars);
            proof {
                assert(entry@ == line_entry(ls[i as int]));
            }
            if entry_chars.len() > 0 {
                match CidrRange::from_str(entry.as_str()) {
                    Ok(c) => {
                        let ghost before = ranges@;
                        ranges.push(c);
                        proof {
                            match lines_ranges(source@, ls, i + 1) {
                                Ok(rest) => {
                                    assert(before + (seq![c] + rest) =~= ranges@ + rest);
                                },
                                Err(_) => {},
                            }
                        }
                    },
                    Err(m) => {
                        let head = concat_str(source, ":");
                        let head = concat_str(head.as_str(), format_u64((i + 1) as u64).as_str());
                        let head = concat_str(head.as_str(), " invalid CIDR entry ");
                        let head = concat_str(head.as_str(), debug_quote(entry.as_str()).as_str());
                        let head = concat_str(head.as_str(), ": ");
                        let message = concat_str(head.as_str(), m.as_str());
                        proof {
                            assert(message@ =~= entry_error(
                                source@ + ":"@ + decimal(i + 1) + " "@,
                                entry@,
                                m@,
                            )) by {
                                reveal_strlit(" invalid CIDR entry ");
                                reveal_strlit("invalid CIDR entry ");
                                reveal_strlit(" ");
                            }
                        }
                        return Err(DecodeError(message));
                    },
                }
            }
            i = i + 1;
        }
        proof {
            assert(ranges@ + Seq::<CidrRange>::empty() =~= ranges@);
        }
        Ok(HostFilter { ranges })
    }

    /// The networks of the given CIDR texts, as [`cidrs_ranges`] says.
    pub fn from_cidrs(cidrs: &[&str]) -> (r: Result<HostFilter, DecodeError>)
        ensures
            match r {
                Ok(f) => cidrs_ranges(cidrs@.map_values(|c: &str| c@), 0) == Ok::<
                    Seq<CidrRange>,
                    Seq<char>,
                >(f.ranges()),
                Err(e) => cidrs_ranges(cidrs@.map_values(|c: &str| c@), 0) == Err::<
                    Seq<CidrRange>,
                    Seq<char>,
                >(e.0@),
            },
    {
        let ghost cv = cidrs@.map_values(|c: &str| c@);
        let mut ranges: Vec<CidrRange> = Vec::new();
        let mut i: usize = 0;
        while i < cidrs.len()
            invariant
                i <= cidrs.len(),
                cv == cidrs@.map_values(|c: &str| c@),
                cidrs_ranges(cv, 0) == match cidrs_ranges(cv, i as int) {
                    Ok(rest) => Ok(ranges@ + rest),
                    Err(e) => Err::<Seq<CidrRange>, Seq<char>>(e),
                },
            decreases cidrs.len() - i,
        {
            match CidrRange::from_str(cidrs[i]) {
                Ok(c) => {
                    let ghost before = ranges@;
                    ranges.push(c);
                    proof {
                        match cidrs_ranges(cv, i + 1) {
                            Ok(rest) => {
                                assert(before + (seq![c] + rest) =~= ranges@ + rest);
                            },
                            Err(_) => {},
                        }
                    }
                },
                Err(m) => {
                    let head = concat_str("invalid CIDR entry ", debug_quote(cidrs[i]).as_str());
                    let head = concat_str(head.as_str(), ": ");
                    let message = concat_str(head.as_str(), m.as_str());
                    proof {
                        assert(message@ =~= entry_error(Seq::empty(), cidrs[i as int]@, m@));
                    }
                    return Err(DecodeError(message));
                },
            }
            i = i + 1;
        }
        proof {
            assert(ranges@ + Seq::<CidrRange>::empty() =~= ranges@);
        }
        Ok(HostFilter { ranges })
    }

    /// Whether any of the networks holds the address.
    pub fn contains(&self, ip: IpAddress) -> (r: bool)
        ensures
            r == self.spec_contains(ip),
    {
        let mut i: usize = 0;
        while i < self.ranges.len()
            invariant
                i <= self.ranges.len(),
                forall|j: int| 0 <= j < i ==> !(#[trigger] self.ranges@[j]).spec_contains(ip),
            decreases self.ranges.len() - i,
        {
            if self.ranges[i].contains(ip) {
                assert(self.ranges()[i as int].spec_contains(ip));
                return true;
            }
            i = i + 1;
        }
        false
    }

    /// The number of networks.
    pub fn len(&self) -> (r: usize)
        ensures
            r == self.ranges().len(),
    {
        self.ranges.len()
    }

    /// A copy with the same networks.
    pub fn duplicate(&self) -> (r: HostFilter)
        ensures
            r.ranges() == self.ranges(),
    {
        let mut ranges: Vec<CidrRange> = Vec::new();
        let mut i: usize = 0;
        while i < self.ranges.len()
            invariant
                i <= self.ranges.len(),
                ranges@ == self.ranges@.take(i as int),
            decreases self.ranges.len() - i,
        {
            ranges.push(self.ranges[i]);
            assert(self.ranges@.take(i + 1) =~= self.ranges@.take(i as int).push(self.ranges@[i as int]));
            i = i + 1;
        }
        assert(self.ranges@.take(self.ranges.len() as int) =~= self.ranges@);
        HostFilter { ranges }
    }
}


/// A network read from `address/prefix` holds the address it was read
/// from, and an address is in it exactly when its bits under the mask are
/// the network's.
pub proof fn law_cidr_holds_its_address(text: Seq<char>)
    requires
        spec_cidr(text) is Ok,
    ensures
        spec_cidr(text)->Ok_0.spec_contains(spec_ip(text.take(first_index_of(text, '/')->Some_0))->Some_0),
{
    let c = spec_cidr(text)->Ok_0;
    let ip = spec_ip(text.take(first_index_of(text, '/')->Some_0))->Some_0;
    match (c, ip) {
        (CidrRange::V4 { network, mask }, IpAddress::V4(a)) => {
            assert((a & mask) & mask == a & mask) by (bit_vector);
        },
        (CidrRange::V6 { network, mask }, IpAddress::V6(a)) => {
            assert((a & mask) & mask == a & mask) by (bit_vector);
        },
        _ => {},
    }
}

proof fn lemma_ranges_count(source: Seq<char>, lines: Seq<Seq<char>>, i: int, rs: Seq<CidrRange>)
    requires
        0 <= i <= lines.len(),
        lines_ranges(source, lines, i) == Ok::<Seq<CidrRange>, Seq<char>>(rs),
    ensures
        rs.len() == entries_of(lines, lines.len() as int).len() - entries_of(lines, i).len(),
    decreases lines.len() - i,
{
    if i < lines.len() {
        assert(entries_of(lines, i + 1) == (if line_entry(lines[i]).len() == 0 {
            entries_of(lines, i)
        } else {
            entries_of(lines, i).push(line_entry(lines[i]))
        }));
        if line_entry(lines[i]).len() == 0 {
            lemma_ranges_count(source, lines, i + 1, rs);
        } else {
            let rest = lines_ranges(source, lines, i + 1)->Ok_0;
            lemma_ranges_count(source, lines, i + 1, rest);
        }
    }
}

/// A hosts text read without error has one network per line with an entry
/// (the text before any `#`, trimmed, not empty): as many as
/// [`file_entries`] lists.
pub proof fn law_hosts_one_range_per_entry(source: Seq<char>, content: Seq<char>, rs: Seq<CidrRange>)
    requires
        lines_ranges(source, split_seq(content, '\n'), 0) == Ok::<Seq<CidrRange>, Seq<char>>(rs),
    ensures
        rs.len() == entries_of(split_seq(content, '\n'), split_seq(content, '\n').len() as int).len(),
{
    lemma_ranges_count(source, split_seq(content, '\n'), 0, rs);
}

} // verus!
