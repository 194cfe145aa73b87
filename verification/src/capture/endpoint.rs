//! Network endpoints: an IP address and a UDP port.

use vstd::prelude::*;
use crate::text::{
    chars_of, find_char, first_index_of, is_digit, parse_u16_chars, parse_u8_chars, spec_parse_int,
    split_chars, split_seq,
};

verus! {

/// An IP address, by its numeric value.
#[derive(Clone, Copy, Debug, PartialEq, Eq, Structural)]
pub enum IpAddress {
    V4(u32),
    V6(u128),
}

impl IpAddress {
    /// The IPv4 address `a.b.c.d`.
    pub fn v4(a: u8, b: u8, c: u8, d: u8) -> (r: IpAddress)
        ensures
            r == IpAddress::V4((a * 0x100_0000 + b * 0x1_0000 + c * 0x100 + d) as u32),
    {
        IpAddress::V4(a as u32 * 0x100_0000 + b as u32 * 0x1_0000 + c as u32 * 0x100 + d as u32)
    }
}

/// One part of a dotted IPv4 address: one to three decimal digits, no
/// leading zero unless the part is `0`, at most 255.
pub open spec fn spec_octet(p: Seq<char>) -> Option<int> {
    if 1 <= p.len() <= 3 && is_digit(p[0]) && (p.len() == 1 || p[0] != '0') {
        spec_parse_int(p, 0, 255)
    } else {
        None
    }
}

/// The value of a dotted-quad IPv4 address text, as the standard library's
/// `Ipv4Addr` parser accepts it.
pub open spec fn spec_ipv4(s: Seq<char>) -> Option<u32> {
    let parts = split_seq(s, '.');
    if parts.len() == 4 && spec_octet(parts[0]) is Some && spec_octet(parts[1]) is Some
        && spec_octet(parts[2]) is Some && spec_octet(parts[3]) is Some {
        Some(
            (spec_octet(parts[0])->Some_0 * 0x100_0000 + spec_octet(parts[1])->Some_0 * 0x1_0000
                + spec_octet(parts[2])->Some_0 * 0x100 + spec_octet(parts[3])->Some_0) as u32,
        )
    } else {
        None
    }
}

fn parse_octet(p: &[char]) -> (r: Option<u8>)
    ensures
        match r {
            Some(v) => spec_octet(p@) == Some(v as int),
            None => spec_octet(p@) is None,
        },
{
    if p.len() < 1 || p.len() > 3 {
        return None;
    }
    let first = p[0];
    if !('0' <= first && first <= '9') {
        return None;
    }
    if p.len() > 1 && first == '0' {
        return None;
    }
    parse_u8_chars(p)
}

/// Reads a dotted-quad IPv4 address, as [`spec_ipv4`] says.
pub fn parse_ipv4_chars(cs: &[char]) -> (r: Option<u32>)
    ensures
        r == spec_ipv4(cs@),
{
    let parts = split_chars(cs, '.');
    if parts.len() != 4 {
        return None;
    }
    let a = parse_octet(&parts[0])?;
    let b = parse_octet(&parts[1])?;
    let c = parse_octet(&parts[2])?;
    let d = parse_octet(&parts[3])?;
    Some(a as u32 * 0x100_0000 + b as u32 * 0x1_0000 + c as u32 * 0x100 + d as u32)
}

/// An IP address and a UDP port.
#[derive(Clone, Copy, Debug, PartialEq, Eq, Structural)]
pub struct Endpoint {
    pub ip: IpAddress,
    pub port: u16,
}

/// The endpoint an `ip:port` text names: the text up to the first `:` is an
/// IPv4 address, the rest a port number.
pub open spec fn spec_endpoint(s: Seq<char>) -> Option<Endpoint> {
    match first_index_of(s, ':') {
        Some(i) => match (spec_ipv4(s.take(i)), spec_parse_int(s.skip(i + 1), 0, 0xffff)) {
            (Some(ip), Some(port)) => Some(Endpoint { ip: IpAddress::V4(ip), port: port as u16 }),
            _ => None,
        },
        None => None,
    }
}

impl Endpoint {
    pub open spec fn spec_is_albion_port(&self) -> bool {
        self.port == 5056 || self.port == 4535
    }

    /// Whether the port is one the game servers use: 5056 or 4535.
    pub fn is_albion_port(&self) -> (r: bool)
        ensures
            r == self.spec_is_albion_port(),
    {
        self.port == 5056 || self.port == 4535
    }

    /// Reads an `ip:port` text, as [`spec_endpoint`] says.
    pub fn parse(text: &str) -> (r: Option<Endpoint>)
        ensures
            r == spec_endpoint(text@),
    {
        let cs = chars_of(text);
        let i = find_char(&cs, ':')?;
        let head = vstd::slice::slice_subrange(cs.as_slice(), 0, i);
        let tail = vstd::slice::slice_subrange(cs.as_slice(), i + 1, cs.len());
        proof {
            assert(head@ =~= cs@.take(i as int));
            assert(tail@ =~= cs@.skip(i + 1));
        }
        let ip = parse_ipv4_chars(head)?;
        let port = parse_u16_chars(tail)?;
        Some(Endpoint { ip: IpAddress::V4(ip), port })
    }

    /// The endpoint an `ip:port` text names; the text must be one.
    pub fn from_str(ip_str: &str) -> (r: Endpoint)
        requires
            spec_endpoint(ip_str@) is Some,
        ensures
            Some(r) == spec_endpoint(ip_str@),
    {
        match Self::parse(ip_str) {
            Some(e) => e,
            None => {
                proof {
                    assert(false);
                }
                Endpoint { ip: IpAddress::V4(0), port: 0 }
            },
        }
    }
}

} // verus!
