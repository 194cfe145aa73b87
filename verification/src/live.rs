//! Live capture, one frame at a time: which frames are read, what the
//! parser makes of them, which decoded packets are printed, and when the
//! capture stops. The capture itself and the printing are the caller's.

use vstd::prelude::*;
use crate::capture::filter::CaptureFilter;
use crate::capture::frame::{extract_udp_payload, has_short_udp_length, spec_frame_udp, spec_short_udp_length};
use crate::cli::{should_emit, spec_should_emit, CliOptions, OptionsModel};
use crate::packet::decoded::DecodedPacket;
use crate::photon::framing::spec_receive;
use crate::photon::parser::{framed_appended, PhotonParser};

verus! {

/// What the capture has counted so far: frames seen, frames read (kept by
/// the filter), decoded packets printed.
pub struct LiveCounters {
    pub packet_number: usize,
    pub processed: usize,
    pub emitted: usize,
}

/// What one frame led to: whether it was read, the framing status when it
/// was, the positions of the decoded packets to print, and whether the
/// capture is to stop.
pub struct FrameStep {
    pub kept: bool,
    pub status: Option<&'static str>,
    pub emit: Vec<usize>,
    pub stop: bool,
}

/// Whether a frame carries a UDP datagram that the filter keeps.
pub open spec fn frame_kept(filter: CaptureFilter, frame: Seq<u8>, link_type: u16) -> bool {
    match spec_frame_udp(frame, Some(link_type)) {
        Some((s, d, _, _)) => filter.spec_matches(s) || filter.spec_matches(d),
        None => false,
    }
}

/// The positions, from `from` on, of the decoded packets that the options
/// print, in order.
pub open spec fn emitted_indices(ds: Seq<DecodedPacket>, from: int, m: OptionsModel) -> Seq<usize>
    decreases ds.len() - from,
{
    if from < 0 || from >= ds.len() {
        Seq::empty()
    } else {
        (if spec_should_emit(ds[from], m) {
            seq![from as usize]
        } else {
            Seq::empty()
        }) + emitted_indices(ds, from + 1, m)
    }
}

/// The text of an optional status.
pub open spec fn status_text(o: Option<&'static str>) -> Option<Seq<char>> {
    match o {
        Some(t) => Some(t@),
        None => None,
    }
}

/// Whether the capture stops after `processed` frames were read.
pub open spec fn spec_stop(count: Option<usize>, processed: int) -> bool {
    match count {
        Some(limit) => processed >= limit,
        None => false,
    }
}

impl LiveCounters {
    /// Nothing counted yet.
    pub fn new() -> (r: LiveCounters)
        ensures
            r.packet_number == 0,
            r.processed == 0,
            r.emitted == 0,
    {
        LiveCounters { packet_number: 0, processed: 0, emitted: 0 }
    }
}

/// Handles one captured frame: it is counted; a UDP datagram that the
/// filter keeps is counted as read and handed to the parser; the decoded
/// packets that this added and that the options print are named, and the
/// capture stops once as many frames were read as the options' count.
/// `None` for a frame whose UDP length is shorter than the UDP header, or
/// whose payload the parser cannot read ([`spec_receive`]).
pub fn process_frame(
    parser: &mut PhotonParser,
    filter: &CaptureFilter,
    options: &CliOptions,
    counters: &mut LiveCounters,
    frame: &[u8],
    link_type: u16,
) -> (r: Option<FrameStep>)
    requires
        old(parser).wf(),
        old(counters).packet_number < usize::MAX,
        old(counters).processed < usize::MAX,
    ensures
        final(parser).wf(),
        final(counters).packet_number == old(counters).packet_number + 1,
        spec_short_udp_length(frame@, Some(link_type)) ==> r is None,
        !spec_short_udp_length(frame@, Some(link_type)) && !frame_kept(*filter, frame@, link_type) ==> {
            &&& r matches Some(step) && !step.kept && step.status is None && step.emit@.len() == 0
                && !step.stop
            &&& *final(parser) == *old(parser)
            &&& final(counters).processed == old(counters).processed
            &&& final(counters).emitted == old(counters).emitted
        },
        !spec_short_udp_length(frame@, Some(link_type)) && frame_kept(*filter, frame@, link_type) ==> {
            let (s, d, a, b) = spec_frame_udp(frame@, Some(link_type))->Some_0;
            &&& final(counters).processed == old(counters).processed + 1
            &&& match spec_receive(old(parser).spec_framing().pending(), frame@.subrange(a, b)) {
                None => r is None,
                Some((st, pend, ms, enc)) => {
                    &&& r matches Some(step) && step.kept && status_text(step.status) == Some(st)
                        && step.emit@ == emitted_indices(
                        final(parser).spec_decoded(),
                        old(parser).spec_decoded().len() as int,
                        options.model(),
                    ) && final(counters).emitted == old(counters).emitted + step.emit.len()
                        && step.stop == spec_stop(options.count, final(counters).processed as int)
                    &&& final(parser).spec_framing().pending() == pend
                    &&& framed_appended(
                        old(parser).spec_framed(),
                        final(parser).spec_framed(),
                        ms,
                        (old(counters).packet_number + 1) as usize,
                        s,
                        d,
                    )
                    &&& final(parser).spec_extractor().player_state.spec_has_encrypted_data() == (
                    old(parser).spec_extractor().player_state.spec_has_encrypted_data() || enc)
                    &&& final(parser).spec_decoded() == old(parser).spec_decoded()
                },
            }
        },
{
    counters.packet_number = counters.packet_number + 1;
    if has_short_udp_length(frame, Some(link_type)) {
        return None;
    }
    let udp = match extract_udp_payload(frame, Some(link_type)) {
        Some(p) => p,
        None => {
            return Some(FrameStep { kept: false, status: None, emit: Vec::new(), stop: false });
        },
    };
    if !filter.matches_udp_packet(&udp) {
        return Some(FrameStep { kept: false, status: None, emit: Vec::new(), stop: false });
    }
    counters.processed = counters.processed + 1;
    let decoded_before = parser.decoded_packets().len();
    let received = parser.try_receive_packet(
        udp.payload,
        counters.packet_number,
        udp.source,
        udp.destination,
    );
    let status = match received {
        None => return None,
        Some(Ok(status)) => status,
        Some(Err(_)) => "InvalidHeader",
    };
    let decoded = parser.decoded_packets();
    let ghost ds = decoded@;
    let mut emit: Vec<usize> = Vec::new();
    let mut i = decoded_before;
    while i < decoded.len()
        invariant
            decoded_before <= i <= decoded.len(),
            ds == decoded@,
            emit@ + emitted_indices(ds, i as int, options.model()) == emitted_indices(
                ds,
                decoded_before as int,
                options.model(),
            ),
        decreases decoded.len() - i,
    {
        let ghost before = emit@;
        if should_emit(&decoded[i], options) {
            emit.push(i);
        }
        proof {
            let m = options.model();
            let head = if spec_should_emit(ds[i as int], m) {
                seq![i]
            } else {
                Seq::<usize>::empty()
            };
            assert(emit@ =~= before + head);
            assert(emitted_indices(ds, i as int, m) == head + emitted_indices(ds, i + 1, m));
            assert(before + (head + emitted_indices(ds, i + 1, m)) =~= (before + head)
                + emitted_indices(ds, i + 1, m));
        }
        i = i + 1;
    }
    proof {
        assert(emit@ + Seq::<usize>::empty() =~= emit@);
    }
    counters.emitted = counters.emitted + emit.len();
    let stop = match options.count {
        Some(limit) => counters.processed >= limit,
        None => false,
    };
    Some(FrameStep { kept: true, status: Some(status), emit, stop })
}

} // verus!
