//! The packets of a pcapng capture, read from its bytes.
//!
//! A capture is a run of blocks, each starting with its type and total
//! length (four bytes each, in the capture's byte order). The section
//! header block sets the byte order; interface description blocks give the
//! link type of each interface in turn; enhanced and simple packet blocks
//! carry the captured frames.

use vstd::prelude::*;
use crate::error::DecodeError;
use crate::text::{concat_str, decimal, format_u64};
use crate::util::{read_u16, read_u32, spec_u16, spec_u32};

verus! {

/// A captured frame: its number (from 1), its interface's link type when
/// the interface was described, and its bytes.
pub type PacketRecord = (usize, Option<u16>, Vec<u8>);

pub type PacketView = (usize, Option<u16>, Seq<u8>);

pub open spec fn record_view(r: PacketRecord) -> PacketView {
    (r.0, r.1, r.2@)
}

/// The error text for a block whose length does not fit the capture.
pub open spec fn bad_block_message(offset: int) -> Seq<char> {
    "Invalid pcapng block at offset "@ + decimal(offset)
}

/// The error text for a block too short for the fields it must hold.
pub open spec fn short_block_message() -> Seq<char> {
    "pcapng block body too short"@
}

/// A block's length is usable at `offset`: at least the 12 bytes of its
/// frame, and within the capture.
pub open spec fn block_fits(d: Seq<u8>, offset: int, len: int) -> bool {
    len >= 12 && offset + len <= d.len()
}

/// The link type of interface `i`, when described.
pub open spec fn link_of(ifaces: Seq<u16>, i: int) -> Option<u16> {
    if 0 <= i < ifaces.len() {
        Some(ifaces[i])
    } else {
        None
    }
}

/// Whether a byte sequence starts with the four given bytes.
pub open spec fn starts_with4(b: Seq<u8>, x: u8, y: u8, z: u8, w: u8) -> bool {
    b.len() >= 4 && b[0] == x && b[1] == y && b[2] == z && b[3] == w
}

/// What reading the block at `offset` gives, with byte order `little`,
/// interfaces `ifaces` described so far and `n` packets counted:
/// `Some(Ok((next, order, ifaces, n, packet)))` for the offset of the next
/// block, the byte order, interfaces and count after it, and the packet it
/// carries; `Some(Err(message))` for a block that does not read; `None`
/// when a packet block announces more bytes than it holds.
///
/// A block whose length does not fit in one byte order is read in the
/// other, which is then kept; a section header's byte-order magic sets the
/// order. Enhanced packet blocks (type 6) name their interface in four
/// bytes and their captured length at byte 12, the frame at byte 20; simple
/// ones (type 3) in two bytes and at byte 4, the frame at byte 12.
pub open spec fn step(d: Seq<u8>, offset: nat, little: bool, ifaces: Seq<u16>, n: nat) -> Option<
    Result<(nat, bool, Seq<u16>, nat, Option<PacketView>), Seq<char>>,
> {
    let len1 = spec_u32(d, offset + 4int, little) as int;
    let lt = if block_fits(d, offset as int, len1) {
        little
    } else {
        !little
    };
    let bt = spec_u32(d, offset as int, lt);
    let len = spec_u32(d, offset + 4int, lt) as int;
    if !block_fits(d, offset as int, len) {
        Some(Err(bad_block_message(offset as int)))
    } else {
        let body = d.subrange(offset + 8int, offset + len - 4);
        let next = (offset + len) as nat;
        if bt == 0x0A0D0D0A {
            let order = if starts_with4(body, 0x4d, 0x3c, 0x2b, 0x1a) {
                true
            } else if starts_with4(body, 0x1a, 0x2b, 0x3c, 0x4d) {
                false
            } else {
                lt
            };
            Some(Ok((next, order, ifaces, n, None)))
        } else if bt == 1 {
            if body.len() < 2 {
                Some(Err(short_block_message()))
            } else {
                Some(Ok((next, lt, ifaces.push(spec_u16(body, 0, lt)), n, None)))
            }
        } else if bt == 6 || bt == 3 {
            let len_at: int = if bt == 6 {
                12
            } else {
                4
            };
            let data_at: int = if bt == 6 {
                20
            } else {
                12
            };
            if body.len() < len_at + 4 {
                Some(Err(short_block_message()))
            } else {
                let iface = if bt == 6 {
                    spec_u32(body, 0, lt) as int
                } else {
                    spec_u16(body, 0, lt) as int
                };
                let cap = spec_u32(body, len_at, lt) as int;
                if data_at + cap > body.len() {
                    None
                } else {
                    Some(
                        Ok(
                            (
                                next,
                                lt,
                                ifaces,
                                n + 1,
                                Some(
                                    (
                                        (n + 1) as usize,
                                        link_of(ifaces, iface),
                                        body.subrange(data_at, data_at + cap),
                                    ),
                                ),
                            ),
                        ),
                    )
                }
            }
        } else {
            Some(Ok((next, lt, ifaces, n, None)))
        }
    }
}

/// The packets of the blocks from `offset` on, block by block as [`step`]
/// reads them, until fewer than 12 bytes are left.
pub open spec fn walk(d: Seq<u8>, offset: nat, little: bool, ifaces: Seq<u16>, n: nat) -> Option<
    Result<Seq<PacketView>, Seq<char>>,
>
    decreases d.len() - offset,
{
    if offset + 12 > d.len() {
        Some(Ok(Seq::empty()))
    } else {
        match step(d, offset, little, ifaces, n) {
            None => None,
            Some(Err(e)) => Some(Err(e)),
            Some(Ok((next, order, ifs, m, rec))) => if next <= offset {
                Some(Ok(Seq::empty()))
            } else {
                match rec {
                    Some(r) => match walk(d, next, order, ifs, m) {
                        Some(Ok(rest)) => Some(Ok(seq![r] + rest)),
                        other => other,
                    },
                    None => walk(d, next, order, ifs, m),
                }
            },
        }
    }
}

/// The packets of a whole capture, as [`walk`] reads it from the start in
/// little-endian order.
pub open spec fn spec_pcapng(d: Seq<u8>) -> Option<Result<Seq<PacketView>, Seq<char>>> {
    walk(d, 0, true, Seq::empty(), 0)
}

/// What the packets read so far and the outcome of the rest make.
pub open spec fn combine(
    acc: Seq<PacketView>,
    rest: Option<Result<Seq<PacketView>, Seq<char>>>,
) -> Option<Result<Seq<PacketView>, Seq<char>>> {
    match rest {
        Some(Ok(s)) => Some(Ok(acc + s)),
        other => other,
    }
}

pub open spec fn records_view(v: Seq<PacketRecord>) -> Seq<PacketView> {
    v.map_values(|r: PacketRecord| record_view(r))
}

fn link_lookup(ifaces: &Vec<u16>, i: u32) -> (r: Option<u16>)
    ensures
        r == link_of(ifaces@, i as int),
{
    if (i as usize) < ifaces.len() {
        Some(ifaces[i as usize])
    } else {
        None
    }
}

/// Reads the block at `offset`, as [`step`] says; the interfaces are kept
/// in `interfaces`.
#[verifier::spinoff_prover]
#[verifier::rlimit(40)]
fn read_block(
    data: &[u8],
    offset: usize,
    little: bool,
    interfaces: &mut Vec<u16>,
    packet_index: usize,
) -> (r: Option<Result<(usize, bool, Option<PacketRecord>), DecodeError>>)
    requires
        offset + 12 <= data.len(),
        packet_index * 12 <= offset,
    ensures
        match r {
            None => step(data@, offset as nat, little, old(interfaces)@, packet_index as nat) is None,
            Some(Ok((next, order, rec))) => {
                &&& step(data@, offset as nat, little, old(interfaces)@, packet_index as nat)
                    == Some(
                    Ok::<(nat, bool, Seq<u16>, nat, Option<PacketView>), Seq<char>>(
                        (
                            next as nat,
                            order,
                            final(interfaces)@,
                            (if rec is Some {
                                packet_index + 1
                            } else {
                                packet_index as int
                            }) as nat,
                            match rec {
                                Some(x) => Some(record_view(x)),
                                None => None,
                            },
                        ),
                    ),
                )
                &&& next >= offset + 12
            },
            Some(Err(e)) => step(data@, offset as nat, little, old(interfaces)@, packet_index as nat)
                == Some(
                Err::<(nat, bool, Seq<u16>, nat, Option<PacketView>), Seq<char>>(e.0@),
            ),
        },
{
    let mut lt = little;
    let first_len = read_u32(data, offset + 4, little) as usize;
    if first_len < 12 || first_len > data.len() - offset {
        lt = !little;
    }
    let block_type = read_u32(data, offset, lt);
    let block_total_length = read_u32(data, offset + 4, lt) as usize;
    if block_total_length < 12 || block_total_length > data.len() - offset {
        let message = concat_str(
            "Invalid pcapng block at offset ",
            format_u64(offset as u64).as_str(),
        );
        return Some(Err(DecodeError(message)));
    }
    let body = vstd::slice::slice_subrange(data, offset + 8, offset + block_total_length - 4);
    let next = offset + block_total_length;
    if block_type == 0x0A0D0D0A {
        let order = if body.len() >= 4 && body[0] == 0x4d && body[1] == 0x3c && body[2] == 0x2b
            && body[3] == 0x1a {
            true
        } else if body.len() >= 4 && body[0] == 0x1a && body[1] == 0x2b && body[2] == 0x3c
            && body[3] == 0x4d {
            false
        } else {
            lt
        };
        Some(Ok((next, order, None)))
    } else if block_type == 1 {
        if body.len() < 2 {
            return Some(Err(DecodeError::new("pcapng block body too short")));
        }
        let link_type = read_u16(body, 0, lt);
        interfaces.push(link_type);
        Some(Ok((next, lt, None)))
    } else if block_type == 6 || block_type == 3 {
        let len_at: usize = if block_type == 6 {
            12
        } else {
            4
        };
        let data_at: usize = if block_type == 6 {
            20
        } else {
            12
        };
        if body.len() < len_at + 4 {
            return Some(Err(DecodeError::new("pcapng block body too short")));
        }
        let interface_id: u32 = if block_type == 6 {
            read_u32(body, 0, lt)
        } else {
            read_u16(body, 0, lt) as u32
        };
        let captured_length = read_u32(body, len_at, lt) as usize;
        if body.len() < data_at || captured_length > body.len() - data_at {
            return None;
        }
        let frame = vstd::slice::slice_to_vec(
            vstd::slice::slice_subrange(body, data_at, data_at + captured_length),
        );
        let record: PacketRecord = (packet_index + 1, link_lookup(interfaces, interface_id), frame);
        Some(Ok((next, lt, Some(record))))
    } else {
        Some(Ok((next, lt, None)))
    }
}

/// Reads a pcapng capture's packets from its bytes, as [`spec_pcapng`]
/// says; `None` for a capture with a packet block that announces more
/// bytes than it holds.
pub fn read_pcapng_packets(data: &[u8]) -> (r: Option<Result<Vec<PacketRecord>, DecodeError>>)
    ensures
        match r {
            None => spec_pcapng(data@) is None,
            Some(Ok(v)) => spec_pcapng(data@) == Some(Ok::<Seq<PacketView>, Seq<char>>(records_view(v@))),
            Some(Err(e)) => spec_pcapng(data@) == Some(Err::<Seq<PacketView>, Seq<char>>(e.0@)),
        },
{
    let mut offset: usize = 0;
    let mut little = true;
    let mut interfaces: Vec<u16> = Vec::new();
    let mut packet_index: usize = 0;
    let mut packets: Vec<PacketRecord> = Vec::new();
    assert(records_view(packets@) =~= Seq::<PacketView>::empty());
    while data.len() - offset >= 12
        invariant
            offset <= data.len(),
            packet_index * 12 <= offset,
            spec_pcapng(data@) == combine(
                records_view(packets@),
                walk(data@, offset as nat, little, interfaces@, packet_index as nat),
            ),
        decreases data.len() - offset,
    {
        let ghost before = records_view(packets@);
        let (next, order, rec) = match read_block(data, offset, little, &mut interfaces, packet_index) {
            None => return None,
            Some(Err(e)) => return Some(Err(e)),
            Some(Ok(step)) => step,
        };
        match rec {
            Some(record) => {
                packet_index = packet_index + 1;
                packets.push(record);
                proof {
                    assert(records_view(packets@) =~= before + seq![record_view(record)]);
                    let rest = walk(data@, next as nat, order, interfaces@, packet_index as nat);
                    match rest {
                        Some(Ok(s)) => {
                            assert(before + (seq![record_view(record)] + s) =~= (before
                                + seq![record_view(record)]) + s);
                        },
                        _ => {},
                    }
                }
            },
            None => {},
        }
        offset = next;
        little = order;
    }
    proof {
        assert(records_view(packets@) + Seq::<PacketView>::empty() =~= records_view(packets@));
    }
    Some(Ok(packets))
}

/// Reads a pcapng capture's packets from its bytes, as [`spec_pcapng`]
/// says. A packet block that announces more bytes than it holds is left
/// out by the requirement: [`read_pcapng_packets`] tells such a capture.
pub fn iter_pcapng_packets(data: &[u8]) -> (r: Result<Vec<PacketRecord>, DecodeError>)
    requires
        spec_pcapng(data@) is Some,
    ensures
        match r {
            Ok(v) => spec_pcapng(data@) == Some(Ok::<Seq<PacketView>, Seq<char>>(records_view(v@))),
            Err(e) => spec_pcapng(data@) == Some(Err::<Seq<PacketView>, Seq<char>>(e.0@)),
        },
{
    match read_pcapng_packets(data) {
        Some(r) => r,
        None => Ok(Vec::new()),
    }
}

proof fn lemma_step_counts(d: Seq<u8>, offset: nat, little: bool, ifaces: Seq<u16>, n: nat)
    requires
        step(d, offset, little, ifaces, n) is Some,
        step(d, offset, little, ifaces, n)->Some_0 is Ok,
    ensures
        ({
            let (next, order, ifs, m, rec) = step(d, offset, little, ifaces, n)->Some_0->Ok_0;
            &&& rec is Some ==> m == n + 1 && (rec->Some_0).0 == (n + 1) as usize
            &&& rec is None ==> m == n
            &&& next >= offset + 12
        }),
{
}

proof fn lemma_walk_numbers(
    d: Seq<u8>,
    offset: nat,
    little: bool,
    ifaces: Seq<u16>,
    n: nat,
    ps: Seq<PacketView>,
)
    requires
        walk(d, offset, little, ifaces, n) == Some(Ok::<Seq<PacketView>, Seq<char>>(ps)),
        n * 12 <= offset,
        d.len() <= usize::MAX,
    ensures
        forall|i: int| 0 <= i < ps.len() ==> (#[trigger] ps[i]).0 == n + i + 1,
    decreases d.len() - offset,
{
    if offset + 12 <= d.len() {
        match step(d, offset, little, ifaces, n) {
            Some(Ok((next, order, ifs, m, rec))) => {
                lemma_step_counts(d, offset, little, ifaces, n);
                if next > offset {
                    match rec {
                        Some(r) => {
                            let rest = walk(d, next, order, ifs, m)->Some_0->Ok_0;
                            lemma_walk_numbers(d, next, order, ifs, m, rest);
                            assert(ps == seq![r] + rest);
                            assert forall|i: int| 0 <= i < ps.len() implies (#[trigger] ps[i]).0
                                == n + i + 1 by {
                                if i > 0 {
                                    assert(ps[i] == rest[i - 1]);
                                }
                            }
                        },
                        None => {
                            lemma_walk_numbers(d, next, order, ifs, m, ps);
                        },
                    }
                }
            },
            _ => {},
        }
    }
}

/// The interface a packet block at `offset` names, read in the byte order
/// [`step`] settles on: four bytes for an enhanced packet block, two for a
/// simple one.
pub open spec fn named_interface(d: Seq<u8>, offset: nat, little: bool) -> int {
    let len1 = spec_u32(d, offset + 4int, little) as int;
    let lt = if block_fits(d, offset as int, len1) {
        little
    } else {
        !little
    };
    let bt = spec_u32(d, offset as int, lt);
    let len = spec_u32(d, offset + 4int, lt) as int;
    let body = d.subrange(offset + 8int, offset + len - 4);
    if bt == 6 {
        spec_u32(body, 0, lt) as int
    } else {
        spec_u16(body, 0, lt) as int
    }
}

/// Whether `a` is `b` or the start of it.
pub open spec fn starts(a: Seq<u16>, b: Seq<u16>) -> bool {
    a.len() <= b.len() && forall|k: int| 0 <= k < a.len() ==> a[k] == b[k]
}

/// For each packet that [`walk`] reads from `offset` on: the link types of
/// the interfaces described before its block (the interfaces `ifaces`
/// already known, then one per interface block met, in order), and the
/// interface its block names.
pub open spec fn walk_lookups(d: Seq<u8>, offset: nat, little: bool, ifaces: Seq<u16>, n: nat) -> Seq<
    (Seq<u16>, int),
>
    decreases d.len() - offset,
{
    if offset + 12 > d.len() {
        Seq::empty()
    } else {
        match step(d, offset, little, ifaces, n) {
            Some(Ok((next, order, ifs, m, rec))) => if next <= offset {
                Seq::empty()
            } else {
                match rec {
                    Some(_) => seq![(ifaces, named_interface(d, offset, little))] + walk_lookups(
                        d,
                        next,
                        order,
                        ifs,
                        m,
                    ),
                    None => walk_lookups(d, next, order, ifs, m),
                }
            },
            _ => Seq::empty(),
        }
    }
}

proof fn lemma_step_interfaces(d: Seq<u8>, offset: nat, little: bool, ifaces: Seq<u16>, n: nat)
    requires
        step(d, offset, little, ifaces, n) is Some,
        step(d, offset, little, ifaces, n)->Some_0 is Ok,
    ensures
        ({
            let (next, order, ifs, m, rec) = step(d, offset, little, ifaces, n)->Some_0->Ok_0;
            &&& starts(ifaces, ifs)
            &&& rec is Some ==> ifs == ifaces && (rec->Some_0).1 == link_of(
                ifaces,
                named_interface(d, offset, little),
            )
        }),
{
}

proof fn lemma_walk_lookups(
    d: Seq<u8>,
    offset: nat,
    little: bool,
    ifaces: Seq<u16>,
    n: nat,
    ps: Seq<PacketView>,
)
    requires
        walk(d, offset, little, ifaces, n) == Some(Ok::<Seq<PacketView>, Seq<char>>(ps)),
    ensures
        ({
            let ls = walk_lookups(d, offset, little, ifaces, n);
            &&& ls.len() == ps.len()
            &&& forall|i: int| 0 <= i < ps.len() ==> (#[trigger] ps[i]).1 == link_of(ls[i].0, ls[i].1)
            &&& forall|i: int| 0 <= i < ps.len() ==> starts(ifaces, (#[trigger] ls[i]).0)
            &&& forall|i: int, j: int|
                0 <= i <= j < ps.len() ==> starts((#[trigger] ls[i]).0, (#[trigger] ls[j]).0)
        }),
    decreases d.len() - offset,
{
    let ls = walk_lookups(d, offset, little, ifaces, n);
    if offset + 12 <= d.len() {
        match step(d, offset, little, ifaces, n) {
            Some(Ok((next, order, ifs, m, rec))) => {
                lemma_step_interfaces(d, offset, little, ifaces, n);
                if next > offset {
                    let rest = walk(d, next, order, ifs, m)->Some_0->Ok_0;
                    let lr = walk_lookups(d, next, order, ifs, m);
                    lemma_walk_lookups(d, next, order, ifs, m, rest);
                    match rec {
                        Some(r) => {
                            assert(ps == seq![r] + rest);
                            assert(ls == seq![(ifaces, named_interface(d, offset, little))] + lr);
                            assert forall|i: int| 0 <= i < ps.len() implies (#[trigger] ps[i]).1
                                == link_of(ls[i].0, ls[i].1) by {
                                if i > 0 {
                                    assert(ps[i] == rest[i - 1]);
                                    assert(ls[i] == lr[i - 1]);
                                }
                            }
                            assert forall|i: int| 0 <= i < ps.len() implies starts(
                                ifaces,
                                (#[trigger] ls[i]).0,
                            ) by {
                                if i > 0 {
                                    assert(ls[i] == lr[i - 1]);
                                }
                            }
                            assert forall|i: int, j: int| 0 <= i <= j < ps.len() implies starts(
                                (#[trigger] ls[i]).0,
                                (#[trigger] ls[j]).0,
                            ) by {
                                if j > 0 {
                                    assert(ls[j] == lr[j - 1]);
                                }
                                if i > 0 {
                                    assert(ls[i] == lr[i - 1]);
                                    assert(starts(lr[i - 1].0, lr[j - 1].0));
                                } else {
                                    if j > 0 {
                                        assert(starts(ifs, lr[j - 1].0));
                                    }
                                }
                            }
                        },
                        None => {
                            assert(ps == rest);
                            assert(ls == lr);
                            assert forall|i: int| 0 <= i < ps.len() implies starts(
                                ifaces,
                                (#[trigger] ls[i]).0,
                            ) by {
                                assert(starts(ifs, lr[i].0));
                            }
                        },
                    }
                }
            },
            _ => {},
        }
    }
}

/// In a capture read without error, every packet's link type is that of
/// the interface its block names among the interfaces described before it
/// (numbered from 0 in the order their blocks come), or none when no such
/// interface was described yet; an interface once described keeps its link
/// type for every later packet.
pub proof fn law_pcapng_links_from_earlier_interfaces(data: Seq<u8>, ps: Seq<PacketView>)
    requires
        spec_pcapng(data) == Some(Ok::<Seq<PacketView>, Seq<char>>(ps)),
    ensures
        ({
            let ls = walk_lookups(data, 0, true, Seq::empty(), 0);
            &&& ls.len() == ps.len()
            &&& forall|i: int| 0 <= i < ps.len() ==> (#[trigger] ps[i]).1 == link_of(ls[i].0, ls[i].1)
            &&& forall|i: int, j: int|
                0 <= i <= j < ps.len() ==> starts((#[trigger] ls[i]).0, (#[trigger] ls[j]).0)
        }),
{
    lemma_walk_lookups(data, 0, true, Seq::empty(), 0, ps);
}

/// A capture read without error numbers its packets 1, 2, 3, ... in the
/// order their blocks come; one shorter than a block's frame has none.
pub proof fn law_pcapng_packets_numbered(data: Seq<u8>, ps: Seq<PacketView>)
    requires
        spec_pcapng(data) == Some(Ok::<Seq<PacketView>, Seq<char>>(ps)),
        data.len() <= usize::MAX,
    ensures
        forall|i: int| 0 <= i < ps.len() ==> (#[trigger] ps[i]).0 == i + 1,
        data.len() < 12 ==> ps.len() == 0,
{
    lemma_walk_numbers(data, 0, true, Seq::empty(), 0, ps);
}

/// A block that fits the capture (at least 12 bytes, within it) and is
/// neither a section header, an interface description nor a packet block
/// (statistics, name resolution and any other kind) is passed over: the
/// next block is read right after it, with the byte order, interfaces and
/// packet count as they were, and no packet comes of it.
pub proof fn law_pcapng_other_blocks_skipped(
    d: Seq<u8>,
    offset: nat,
    little: bool,
    ifaces: Seq<u16>,
    n: nat,
)
    requires
        12 <= spec_u32(d, offset + 4int, little),
        offset + spec_u32(d, offset + 4int, little) <= d.len(),
        spec_u32(d, offset as int, little) != 0x0A0D0D0A,
        spec_u32(d, offset as int, little) != 1,
        spec_u32(d, offset as int, little) != 3,
        spec_u32(d, offset as int, little) != 6,
    ensures
        step(d, offset, little, ifaces, n) == Some(
            Ok::<(nat, bool, Seq<u16>, nat, Option<PacketView>), Seq<char>>(
                (
                    (offset + spec_u32(d, offset + 4int, little)) as nat,
                    little,
                    ifaces,
                    n,
                    None,
                ),
            ),
        ),
        walk(d, offset, little, ifaces, n) == walk(
            d,
            (offset + spec_u32(d, offset + 4int, little)) as nat,
            little,
            ifaces,
            n,
        ),
{
}

} // verus!
