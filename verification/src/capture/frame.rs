//! UDP datagrams inside captured Ethernet frames.
//!
//! A frame is an Ethernet header (with any number of 802.1Q / 802.1ad
//! tags), then an IPv4 or IPv6 header, then a UDP header and its payload.
//! All multi-byte fields are big-endian.

use vstd::prelude::*;
use crate::capture::endpoint::{Endpoint, IpAddress};

verus! {

/// A UDP datagram: its endpoints and its payload.
#[derive(Debug)]
pub struct UdpPacket<'a> {
    pub source: Endpoint,
    pub destination: Endpoint,
    pub payload: &'a [u8],
}

/// The big-endian value of a byte sequence.
pub open spec fn be_value(s: Seq<u8>) -> nat
    decreases s.len(),
{
    if s.len() == 0 {
        0
    } else {
        be_value(s.drop_last()) * 256 + s.last() as nat
    }
}

/// The big-endian 16-bit value at `at`.
pub open spec fn be16(f: Seq<u8>, at: int) -> int {
    f[at] * 256 + f[at + 1]
}

/// `256` to the power `n`.
pub open spec fn pow256(n: nat) -> nat
    decreases n,
{
    if n == 0 {
        1
    } else {
        pow256((n - 1) as nat) * 256
    }
}

proof fn lemma_pow256_grows(a: nat, b: nat)
    requires
        a <= b,
    ensures
        pow256(a) <= pow256(b),
    decreases b,
{
    if a < b {
        lemma_pow256_grows(a, (b - 1) as nat);
    }
}

proof fn lemma_be_value_bound(s: Seq<u8>, n: nat)
    requires
        s.len() == n,
    ensures
        be_value(s) < pow256(n),
    decreases n,
{
    if n > 0 {
        lemma_be_value_bound(s.drop_last(), (n - 1) as nat);
        let p = pow256((n - 1) as nat);
        let v = be_value(s.drop_last());
        assert(v * 256 + s.last() < p * 256) by (nonlinear_arith)
            requires
                v < p,
                s.last() < 256,
        ;
    }
}

fn read_be16(f: &[u8], at: usize) -> (r: u16)
    requires
        at + 2 <= f.len(),
    ensures
        r == be16(f@, at as int),
{
    f[at] as u16 * 256 + f[at + 1] as u16
}

/// The big-endian value of the `n` bytes at `at`, for `n` up to 16.
fn read_be(f: &[u8], at: usize, n: usize) -> (r: u128)
    requires
        n <= 16,
        at + n <= f.len(),
    ensures
        r == be_value(f@.subrange(at as int, at + n)),
{
    let mut v: u128 = 0;
    let mut i: usize = 0;
    while i < n
        invariant
            i <= n <= 16,
            at + n <= f.len(),
            v == be_value(f@.subrange(at as int, at + i)),
        decreases n - i,
    {
        let ghost s = f@.subrange(at as int, at + i + 1);
        proof {
            assert(s.drop_last() =~= f@.subrange(at as int, at + i));
            lemma_be_value_bound(s, (i + 1) as nat);
            lemma_pow256_grows((i + 1) as nat, 16);
            reveal_with_fuel(pow256, 17);
        }
        v = v * 256 + f[at + i] as u128;
        i = i + 1;
    }
    v
}

/// The frame offset and EtherType after the VLAN tags that start at
/// `offset` with tag type `eth`.
pub open spec fn skip_vlan(f: Seq<u8>, offset: int, eth: int) -> (int, int)
    decreases f.len() - offset,
{
    if (eth == 0x8100 || eth == 0x88A8) && 0 <= offset && f.len() >= offset + 4 {
        skip_vlan(f, offset + 4, be16(f, offset + 2))
    } else {
        (offset, eth)
    }
}

/// A datagram located in a frame: endpoints, payload start and end.
pub type UdpSpan = (Endpoint, Endpoint, int, int);

/// The UDP header at `udp` with the given addresses: `None` when the header
/// or the datagram it announces runs past the frame.
pub open spec fn udp_at(f: Seq<u8>, udp: int, src: IpAddress, dst: IpAddress) -> Option<UdpSpan> {
    if f.len() < udp + 8 || f.len() < udp + be16(f, udp + 4) {
        None
    } else {
        Some(
            (
                Endpoint { ip: src, port: be16(f, udp) as u16 },
                Endpoint { ip: dst, port: be16(f, udp + 2) as u16 },
                udp + 8,
                udp + be16(f, udp + 4),
            ),
        )
    }
}

/// The datagram in an IPv4 packet at `off`: version 4, protocol 17, the
/// packet's total length within the frame, UDP after the header length.
pub open spec fn ipv4_udp(f: Seq<u8>, off: int) -> Option<UdpSpan> {
    if f.len() < off + 20 || f[off] / 16 != 4 || f[off + 9] != 17 || f.len() < off + be16(
        f,
        off + 2,
    ) {
        None
    } else {
        udp_at(
            f,
            off + (f[off] % 16) * 4,
            IpAddress::V4(be_value(f.subrange(off + 12, off + 16)) as u32),
            IpAddress::V4(be_value(f.subrange(off + 16, off + 20)) as u32),
        )
    }
}

/// The datagram in an IPv6 packet at `off`: next header 17, UDP right after
/// the fixed header.
pub open spec fn ipv6_udp(f: Seq<u8>, off: int) -> Option<UdpSpan> {
    if f.len() - off < 40 || f[off + 6] != 17 {
        None
    } else {
        udp_at(
            f,
            off + 40,
            IpAddress::V6(be_value(f.subrange(off + 8, off + 24)) as u128),
            IpAddress::V6(be_value(f.subrange(off + 24, off + 40)) as u128),
        )
    }
}

/// The datagram an Ethernet frame (link type 1) carries, over IPv4 or IPv6.
pub open spec fn spec_frame_udp(f: Seq<u8>, link_type: Option<u16>) -> Option<UdpSpan> {
    if link_type != Some(1u16) || f.len() < 14 {
        None
    } else {
        let (off, eth) = skip_vlan(f, 14, be16(f, 12));
        if eth == 0x0800 {
            ipv4_udp(f, off)
        } else if eth == 0x86DD {
            ipv6_udp(f, off)
        } else {
            None
        }
    }
}

/// Whether the datagram a frame carries announces a length shorter than its
/// own header: its payload would end before it starts.
pub open spec fn spec_short_udp_length(f: Seq<u8>, link_type: Option<u16>) -> bool {
    match spec_frame_udp(f, link_type) {
        Some((_, _, start, end)) => end < start,
        None => false,
    }
}

fn udp_span(f: &[u8], udp: usize, src: IpAddress, dst: IpAddress) -> (r: Option<(Endpoint, Endpoint, usize, usize)>)
    requires
        udp <= f.len(),
    ensures
        match r {
            Some((s, d, a, b)) => udp_at(f@, udp as int, src, dst) == Some(
                (s, d, a as int, b as int),
            ),
            None => udp_at(f@, udp as int, src, dst) is None,
        },
{
    if f.len() - udp < 8 {
        return None;
    }
    let source_port = read_be16(f, udp);
    let destination_port = read_be16(f, udp + 2);
    let udp_length = read_be16(f, udp + 4) as usize;
    if f.len() - udp < udp_length {
        return None;
    }
    Some(
        (
            Endpoint { ip: src, port: source_port },
            Endpoint { ip: dst, port: destination_port },
            udp + 8,
            udp + udp_length,
        ),
    )
}

fn ipv4_span(f: &[u8], off: usize) -> (r: Option<(Endpoint, Endpoint, usize, usize)>)
    requires
        off <= f.len(),
    ensures
        match r {
            Some((s, d, a, b)) => ipv4_udp(f@, off as int) == Some((s, d, a as int, b as int)),
            None => ipv4_udp(f@, off as int) is None,
        },
{
    if f.len() - off < 20 || f[off] / 16 != 4 {
        return None;
    }
    let ihl = ((f[off] % 16) * 4) as usize;
    let total_length = read_be16(f, off + 2) as usize;
    if f[off + 9] != 17 || f.len() - off < total_length {
        return None;
    }
    let source_ip = read_be(f, off + 12, 4);
    let destination_ip = read_be(f, off + 16, 4);
    proof {
        lemma_be_value_bound(f@.subrange(off + 12, off + 16), 4);
        lemma_be_value_bound(f@.subrange(off + 16, off + 20), 4);
        reveal_with_fuel(pow256, 5);
    }
    if f.len() - off < ihl {
        return None;
    }
    udp_span(f, off + ihl, IpAddress::V4(source_ip as u32), IpAddress::V4(destination_ip as u32))
}

fn ipv6_span(f: &[u8], off: usize) -> (r: Option<(Endpoint, Endpoint, usize, usize)>)
    requires
        off <= f.len(),
    ensures
        match r {
            Some((s, d, a, b)) => ipv6_udp(f@, off as int) == Some((s, d, a as int, b as int)),
            None => ipv6_udp(f@, off as int) is None,
        },
{
    if f.len() - off < 40 || f[off + 6] != 17 {
        return None;
    }
    let source_ip = read_be(f, off + 8, 16);
    let destination_ip = read_be(f, off + 24, 16);
    udp_span(f, off + 40, IpAddress::V6(source_ip), IpAddress::V6(destination_ip))
}

fn frame_span(frame: &[u8], link_type: Option<u16>) -> (r: Option<(Endpoint, Endpoint, usize, usize)>)
    ensures
        match r {
            Some((s, d, a, b)) => spec_frame_udp(frame@, link_type) == Some(
                (s, d, a as int, b as int),
            ),
            None => spec_frame_udp(frame@, link_type) is None,
        },
{
    match link_type {
        Some(1) => {},
        _ => return None,
    }
    if frame.len() < 14 {
        return None;
    }
    let mut eth_type = read_be16(frame, 12);
    let mut offset: usize = 14;
    while (eth_type == 0x8100 || eth_type == 0x88A8) && frame.len() - offset >= 4
        invariant
            14 <= offset <= frame.len(),
            skip_vlan(frame@, offset as int, eth_type as int) == skip_vlan(
                frame@,
                14,
                be16(frame@, 12),
            ),
        decreases frame.len() - offset,
    {
        eth_type = read_be16(frame, offset + 2);
        offset = offset + 4;
    }
    if eth_type == 0x0800 {
        ipv4_span(frame, offset)
    } else if eth_type == 0x86DD {
        ipv6_span(frame, offset)
    } else {
        None
    }
}

/// Whether the datagram in a frame announces a length shorter than its own
/// header, as [`spec_short_udp_length`] says.
pub fn has_short_udp_length(frame: &[u8], link_type: Option<u16>) -> (r: bool)
    ensures
        r == spec_short_udp_length(frame@, link_type),
{
    match frame_span(frame, link_type) {
        Some((_, _, start, end)) => end < start,
        None => false,
    }
}

/// The UDP datagram an Ethernet frame carries: link type 1 only, through any
/// VLAN tags, over IPv4 or IPv6, as [`spec_frame_udp`] says; `None` for any
/// other frame. A datagram whose announced length is shorter than its
/// header has no payload to slice and is left out.
pub fn extract_udp_payload(frame: &[u8], link_type: Option<u16>) -> (r: Option<UdpPacket<'_>>)
    requires
        !spec_short_udp_length(frame@, link_type),
    ensures
        match r {
            Some(p) => spec_frame_udp(frame@, link_type) matches Some((s, d, a, b)) && p.source
                == s && p.destination == d && p.payload@ == frame@.subrange(a, b),
            None => spec_frame_udp(frame@, link_type) is None,
        },
{
    let (source, destination, start, end) = frame_span(frame, link_type)?;
    Some(
        UdpPacket {
            source,
            destination,
            payload: vstd::slice::slice_subrange(frame, start, end),
        },
    )
}

} // verus!
