//! The packet parser: UDP payloads in, decoded message records out.
//!
//! The framing takes messages out of payloads; a message's parameters are
//! then recorded against the code table, read by the extractor, and kept
//! as a decoded packet.

use vstd::prelude::*;
use crate::albion::codes::{
    event_code_result, event_fallback, first_with, operation_code_result, number_of,
    parse_event_code, parse_operation_code, short_code, CodeTable, EventCode,
};
use crate::util::{param_i64, spec_param_i64, to_signed_short};
use crate::albion::extracted::ExtractedPacket;
use crate::albion::extractor::{event_outcome, operation_outcome, AlbionExtractor};
use crate::albion::items::ItemNameResolver;
use crate::albion::player_state::PlayerState;
use crate::capture::endpoint::Endpoint;
use crate::error::DecodeError;
use crate::models::albion_mail::AlbionMail;
use crate::models::world_map::{embedded_world, indexes_by_name, names_by_index, WorldMap};
use crate::packet::decoded::{DecodedEvent, DecodedOperation, DecodedPacket, DecodedUnknown};
use crate::packet::kind::{OperationPacketKind, UnknownPacketKind};
use crate::packet::metadata::PacketMetadata;
use crate::packet::parameters::{is_serialized, ParamModel, ParamValue, RawParameters};
use crate::photon::framing::{framed_view, framed_views, spec_receive, FramedMessage, FramedView, PhotonFraming};
use crate::text::{chars_of, decimal, to_owned_string};
use std::sync::Arc;

verus! {

/// The direction of a packet between `ip:port` endpoint texts: from the
/// game server's port 5056 is server to client, to it client to server.
pub open spec fn spec_text_direction(source: Seq<char>, destination: Seq<char>) -> Seq<char> {
    if ends_with_port(source) {
        "server_to_client"@
    } else if ends_with_port(destination) {
        "client_to_server"@
    } else {
        "unknown"@
    }
}

/// Whether an endpoint text ends with `:5056`.
pub open spec fn ends_with_port(t: Seq<char>) -> bool {
    t.len() >= 5 && t.skip(t.len() - 5) == seq![':', '5', '0', '5', '6']
}

fn text_ends_with_port(t: &str) -> (r: bool)
    ensures
        r == ends_with_port(t@),
{
    let cs = chars_of(t);
    let n = cs.len();
    if n < 5 {
        return false;
    }
    let r = cs[n - 5] == ':' && cs[n - 4] == '5' && cs[n - 3] == '0' && cs[n - 2] == '5' && cs[n
        - 1] == '6';
    proof {
        let tail = t@.skip(n - 5);
        if r {
            assert(tail =~= seq![':', '5', '0', '5', '6']);
        } else {
            if tail == seq![':', '5', '0', '5', '6'] {
                assert(tail[0] == t@[n - 5]);
                assert(tail[1] == t@[n - 4]);
                assert(tail[2] == t@[n - 3]);
                assert(tail[3] == t@[n - 2]);
                assert(tail[4] == t@[n - 1]);
            }
        }
    }
    r
}

/// The direction label of a packet between endpoint texts, as
/// [`spec_text_direction`] says.
pub fn direction(source: &str, destination: &str) -> (r: &'static str)
    ensures
        r@ == spec_text_direction(source@, destination@),
{
    if text_ends_with_port(source) {
        "server_to_client"
    } else if text_ends_with_port(destination) {
        "client_to_server"
    } else {
        "unknown"
    }
}

/// How a parser is set up.
pub struct PhotonParserConfig {
    /// The name recorded as each packet's source (a file, or `live`).
    pub source_name: String,
    pub debug: bool,
    /// Whether messages whose codes cannot be read are kept as unknown
    /// packets rather than reported as errors.
    pub capture_unknown_packets: bool,
    pub world_map: WorldMap,
    pub item_names: ItemNameResolver,
    /// The numbers of the operations and events.
    pub codes: CodeTable,
}

impl PhotonParserConfig {
    pub fn new(
        source_name: String,
        debug: bool,
        capture_unknown_packets: bool,
        world_map: WorldMap,
        item_names: ItemNameResolver,
        codes: CodeTable,
    ) -> (r: PhotonParserConfig)
        ensures
            r.source_name == source_name,
            r.debug == debug,
            r.capture_unknown_packets == capture_unknown_packets,
            r.world_map == world_map,
            r.item_names == item_names,
            r.codes == codes,
    {
        PhotonParserConfig {
            source_name,
            debug,
            capture_unknown_packets,
            world_map,
            item_names,
            codes,
        }
    }

    /// The built-in map (an empty one if it cannot be built), no item
    /// names, no capture of unknown packets.
    pub fn with_defaults(source_name: String, debug: bool, codes: CodeTable) -> (r:
        PhotonParserConfig)
        ensures
            r.source_name == source_name,
            r.debug == debug,
            !r.capture_unknown_packets,
            r.world_map.index_view() == names_by_index(embedded_world()),
            r.world_map.name_view() == indexes_by_name(embedded_world()),
            r.item_names.view() == Map::<Seq<char>, Seq<char>>::empty(),
            r.codes == codes,
    {
        let world_map = match WorldMap::from_embedded() {
            Ok(w) => w,
            Err(_) => WorldMap::empty(),
        };
        PhotonParserConfig {
            source_name,
            debug,
            capture_unknown_packets: false,
            world_map,
            item_names: ItemNameResolver::empty(),
            codes,
        }
    }
}

pub struct PhotonParser {
    source_name: String,
    debug: bool,
    capture_unknown_packets: bool,
    codes: CodeTable,
    framing: PhotonFraming,
    framed: Vec<(PacketMetadata, FramedMessage)>,
    decoded_packets: Vec<DecodedPacket>,
    extractor: AlbionExtractor,
}

/// `d` records an operation read with `code`: its metadata, source name,
/// kind, code and name, return code, debug message, parameters, and what
/// the extractor read (`extracted`).
pub open spec fn is_operation_record(
    d: DecodedOperation,
    source_name: Seq<char>,
    kind: OperationPacketKind,
    code: crate::albion::codes::OperationCode,
    p: Map<u8, ParamValue>,
    return_code: Option<i16>,
    debug_message: Seq<char>,
    metadata: PacketMetadata,
) -> bool {
    &&& d.metadata == metadata
    &&& d.file@ == source_name
    &&& d.message_type@ == (match kind {
        OperationPacketKind::Request => "operation_request"@,
        OperationPacketKind::Response => "operation_response"@,
    })
    &&& d.code == code
    &&& d.number == short_code(spec_param_i64(p, 253)->Some_0)
    &&& d.name@ == code.spec_name()
    &&& d.return_code == return_code
    &&& d.debug_message@ == debug_message
    &&& is_serialized(d.parameters, p)
}

/// `u` records a message whose code could not be read.
pub open spec fn is_unknown_record(
    u: DecodedUnknown,
    source_name: Seq<char>,
    message_type: Seq<char>,
    kind: Seq<char>,
    code_parameter: u8,
    raw_code: Option<i32>,
    reason: Seq<char>,
    p: Map<u8, ParamValue>,
    return_code: Option<i16>,
    debug_message: Seq<char>,
    metadata: PacketMetadata,
) -> bool {
    &&& u.metadata == metadata
    &&& u.file@ == source_name
    &&& u.message_type@ == message_type
    &&& u.kind@ == kind
    &&& u.code_parameter == code_parameter
    &&& u.raw_code == raw_code
    &&& u.reason@ == reason
    &&& u.return_code == return_code
    &&& u.debug_message@ == debug_message
    &&& is_serialized(u.parameters, p)
}

/// The parameters an event is read with: those given, with the event code
/// set (key 252) to the number of `Move` when the message's own event byte
/// is that number.
pub open spec fn event_parameters(
    codes: CodeTable,
    photon_event_code: u8,
    p: Map<u8, ParamValue>,
    q: Map<u8, ParamValue>,
) -> bool {
    match number_of(codes.events@, EventCode::Move) {
        Some(n) if n == photon_event_code as i32 => {
            &&& q.dom() == p.dom().insert(252)
            &&& forall|k: u8| k != 252 && p.contains_key(k) ==> q[k] == p[k]
            &&& q[252].model() == ParamModel::Number(decimal(n as int))
        },
        _ => q == p,
    }
}

/// `after` is `before` with the messages `ms` appended, each with the
/// metadata of the packet they came in.
pub open spec fn framed_appended(
    before: Seq<(PacketMetadata, FramedView)>,
    after: Seq<(PacketMetadata, FramedView)>,
    ms: Seq<FramedView>,
    packet_number: usize,
    source: Endpoint,
    destination: Endpoint,
) -> bool {
    &&& after.len() == before.len() + ms.len()
    &&& after.take(before.len() as int) == before
    &&& forall|i: int|
        0 <= i < ms.len() ==> {
            let e = #[trigger] after[before.len() + i];
            &&& e.1 == ms[i]
            &&& e.0.packet_number == packet_number
            &&& e.0.source == source
            &&& e.0.destination == destination
        }
}

/// The parser's setup and framing are as they were.
pub open spec fn setup_kept(a: PhotonParser, b: PhotonParser) -> bool {
    &&& b.spec_source_name() == a.spec_source_name()
    &&& b.spec_capture_unknown() == a.spec_capture_unknown()
    &&& b.spec_codes() == a.spec_codes()
    &&& b.spec_framing() == a.spec_framing()
    &&& b.spec_framed() == a.spec_framed()
}

/// What recording a message whose code could not be read does, with the
/// error `e`: kept as an unknown packet when the parser captures those,
/// else reported as an error with the error's message; the game state
/// stays either way.
pub open spec fn unknown_recorded(
    a: PhotonParser,
    e: crate::albion::codes::CodeParseError,
    message_type: Seq<char>,
    kind: Seq<char>,
    code_parameter: u8,
    p: Map<u8, ParamValue>,
    return_code: Option<i16>,
    debug_message: Seq<char>,
    metadata: PacketMetadata,
    b: PhotonParser,
    r: Result<(), DecodeError>,
) -> bool {
    &&& b.spec_extractor() == a.spec_extractor()
    &&& if a.spec_capture_unknown() {
        &&& r is Ok
        &&& b.spec_decoded().len() == a.spec_decoded().len() + 1
        &&& b.spec_decoded().drop_last() == a.spec_decoded()
        &&& b.spec_decoded().last() matches DecodedPacket::Unknown(u) && is_unknown_record(
            u,
            a.spec_source_name(),
            message_type,
            kind,
            code_parameter,
            e.raw_code,
            e.reason@,
            p,
            return_code,
            debug_message,
            metadata,
        )
    } else {
        &&& r matches Err(err) && err.0@ == e.message@
        &&& b.spec_decoded() == a.spec_decoded()
    }
}

/// What recording an operation message does: its code is read against the
/// table (see [`operation_code_result`]); a known operation is read by the
/// extractor and kept as a decoded operation; otherwise as
/// [`unknown_recorded`] says.
pub open spec fn operation_recorded(
    a: PhotonParser,
    kind: OperationPacketKind,
    p: Map<u8, ParamValue>,
    return_code: Option<i16>,
    debug_message: Seq<char>,
    metadata: PacketMetadata,
    b: PhotonParser,
    r: Result<(), DecodeError>,
) -> bool {
    &&& setup_kept(a, b)
    &&& exists|res: Result<crate::albion::codes::OperationCode, crate::albion::codes::CodeParseError>|
        #[trigger] operation_code_result(a.spec_codes(), p, res) && match res {
            Ok(code) => {
                &&& r is Ok
                &&& b.spec_decoded().len() == a.spec_decoded().len() + 1
                &&& b.spec_decoded().drop_last() == a.spec_decoded()
                &&& b.spec_decoded().last() matches DecodedPacket::Operation(d)
                    && is_operation_record(
                    d,
                    a.spec_source_name(),
                    kind,
                    code,
                    p,
                    return_code,
                    debug_message,
                    metadata,
                ) && exists|now: i64|
                    operation_outcome(
                        a.spec_extractor(),
                        kind,
                        code,
                        p,
                        return_code,
                        now,
                        b.spec_extractor(),
                        d.extracted,
                    )
            },
            Err(e) => unknown_recorded(
                a,
                e,
                match kind {
                    OperationPacketKind::Request => "operation_request"@,
                    OperationPacketKind::Response => "operation_response"@,
                },
                match kind {
                    OperationPacketKind::Request => "operation_request"@,
                    OperationPacketKind::Response => "operation_response"@,
                },
                253,
                p,
                return_code,
                debug_message,
                metadata,
                b,
                r,
            ),
        }
}

/// `d` records an event read with `code`.
pub open spec fn is_event_record(
    d: DecodedEvent,
    codes: CodeTable,
    source_name: Seq<char>,
    code: EventCode,
    p: Map<u8, ParamValue>,
    metadata: PacketMetadata,
) -> bool {
    &&& d.metadata == metadata
    &&& d.file@ == source_name
    &&& d.message_type@ == "event"@
    &&& d.code == code
    &&& d.number == (if first_with(codes.events@, short_code(spec_param_i64(p, 252)->Some_0)) is Some {
        short_code(spec_param_i64(p, 252)->Some_0)
    } else {
        event_fallback(short_code(spec_param_i64(p, 252)->Some_0))->Some_0
    })
    &&& d.name@ == code.spec_name()
    &&& d.return_code is None
    &&& d.debug_message@ == Seq::<char>::empty()
    &&& is_serialized(d.parameters, p)
}

/// What recording an event does: its parameters are completed as
/// [`event_parameters`] says, its code is read against the table (see
/// [`event_code_result`]); a known event is read by the extractor and kept
/// as a decoded event; otherwise as [`unknown_recorded`] says.
pub open spec fn event_recorded(
    a: PhotonParser,
    photon_event_code: u8,
    p: Map<u8, ParamValue>,
    metadata: PacketMetadata,
    b: PhotonParser,
    r: Result<(), DecodeError>,
) -> bool {
    &&& setup_kept(a, b)
    &&& exists|q: Map<u8, ParamValue>, res: Result<EventCode, crate::albion::codes::CodeParseError>|
        #[trigger] event_parameters(a.spec_codes(), photon_event_code, p, q) && #[trigger] event_code_result(
            a.spec_codes(),
            q,
            res,
        ) && match res {
            Ok(code) => {
                &&& r is Ok
                &&& b.spec_decoded().len() == a.spec_decoded().len() + 1
                &&& b.spec_decoded().drop_last() == a.spec_decoded()
                &&& b.spec_decoded().last() matches DecodedPacket::Event(d) && is_event_record(
                    d,
                    a.spec_codes(),
                    a.spec_source_name(),
                    code,
                    q,
                    metadata,
                ) && event_outcome(a.spec_extractor(), code, q, b.spec_extractor(), d.extracted)
            },
            Err(e) => unknown_recorded(
                a,
                e,
                "event"@,
                "event"@,
                252,
                q,
                None,
                Seq::<char>::empty(),
                metadata,
                b,
                r,
            ),
        }
}

impl PhotonParser {
    pub closed spec fn spec_source_name(&self) -> Seq<char> {
        self.source_name@
    }

    pub closed spec fn spec_capture_unknown(&self) -> bool {
        self.capture_unknown_packets
    }

    pub closed spec fn spec_codes(&self) -> CodeTable {
        self.codes
    }

    /// The framing state.
    pub closed spec fn spec_framing(&self) -> PhotonFraming {
        self.framing
    }

    /// The messages taken out of payloads and not yet handed out, each with
    /// the metadata of its packet.
    pub closed spec fn spec_framed(&self) -> Seq<(PacketMetadata, FramedView)> {
        self.framed@.map_values(
            |e: (PacketMetadata, FramedMessage)| (e.0, (e.1.message_type, e.1.payload@)),
        )
    }

    /// The packets decoded so far.
    pub closed spec fn spec_decoded(&self) -> Seq<DecodedPacket> {
        self.decoded_packets@
    }

    /// The session state of the game reading.
    pub closed spec fn spec_extractor(&self) -> AlbionExtractor {
        self.extractor
    }

    pub closed spec fn wf(&self) -> bool {
        &&& self.framing.wf()
        &&& self.framing.completed().len() == 0
        &&& self.extractor.wf()
    }

    /// A parser set up as the configuration says, with nothing read yet.
    pub fn new(config: PhotonParserConfig) -> (r: PhotonParser)
        ensures
            r.wf(),
            r.spec_source_name() == config.source_name@,
            r.spec_debug() == config.debug,
            r.spec_capture_unknown() == config.capture_unknown_packets,
            r.spec_codes() == config.codes,
            r.spec_framed() == Seq::<(PacketMetadata, FramedView)>::empty(),
            r.spec_decoded() == Seq::<DecodedPacket>::empty(),
            r.spec_framing().pending() == Map::<i32, crate::photon::framing::PendingView>::empty(),
            *r.spec_extractor().world_map == config.world_map,
            r.spec_extractor().item_names == config.item_names,
    {
        let r = PhotonParser {
            source_name: config.source_name,
            debug: config.debug,
            capture_unknown_packets: config.capture_unknown_packets,
            codes: config.codes,
            framing: PhotonFraming::new(),
            framed: Vec::new(),
            decoded_packets: Vec::new(),
            extractor: AlbionExtractor::new(Arc::new(config.world_map), config.item_names),
        };
        assert(r.spec_framed() =~= Seq::<(PacketMetadata, FramedView)>::empty());
        r
    }

    /// The packets decoded so far, in order.
    pub fn decoded_packets(&self) -> (r: &[DecodedPacket])
        ensures
            r@ == self.spec_decoded(),
    {
        self.decoded_packets.as_slice()
    }

    /// The packets decoded, handed over.
    pub fn into_decoded_packets(self) -> (r: Vec<DecodedPacket>)
        ensures
            r@ == self.spec_decoded(),
    {
        self.decoded_packets
    }

    /// The number of market orders cached.
    pub fn market_order_count(&self) -> (r: usize)
        ensures
            r == self.spec_extractor().market_state.orders().len(),
    {
        self.extractor.market_order_count()
    }

    pub fn player_state(&self) -> (r: &PlayerState)
        ensures
            *r == self.spec_extractor().player_state,
    {
        self.extractor.player_state()
    }

    /// The player's state, to be changed in place; nothing else changes.
    pub fn player_state_mut(&mut self) -> (r: &mut PlayerState)
        requires
            old(self).wf(),
        ensures
            *r == old(self).spec_extractor().player_state,
            final(self).wf(),
            final(self).spec_extractor() == (AlbionExtractor {
                player_state: *final(r),
                ..old(self).spec_extractor()
            }),
            final(self).spec_source_name() == old(self).spec_source_name(),
            final(self).spec_capture_unknown() == old(self).spec_capture_unknown(),
            final(self).spec_codes() == old(self).spec_codes(),
            final(self).spec_framing() == old(self).spec_framing(),
            final(self).spec_framed() == old(self).spec_framed(),
            final(self).spec_decoded() == old(self).spec_decoded(),
    {
        &mut self.extractor.player_state
    }

    /// The market mails built so far.
    pub fn albion_mails(&self) -> (r: &std::collections::HashMap<i64, AlbionMail>)
        ensures
            r@ == self.spec_extractor().mail_state.mails(),
    {
        self.extractor.albion_mails()
    }

    /// Whether the parser reports progress as it reads.
    pub closed spec fn spec_debug(&self) -> bool {
        self.debug
    }

    /// Whether the parser reports progress as it reads.
    pub fn debug(&self) -> (r: bool)
        ensures
            r == self.spec_debug(),
    {
        self.debug
    }

    /// Reads a UDP payload's commands (see [`spec_receive`]): the messages
    /// it completes are kept, with the packet's metadata, until handed
    /// out; encrypted traffic is recorded in the player state. Returns the
    /// framing status; `None` for a payload that [`spec_receive`] cannot
    /// read (a fragment that does not fit its message), after which the
    /// messages in the making are unspecified.
    pub fn try_receive_packet(
        &mut self,
        payload: &[u8],
        packet_number: usize,
        source: Endpoint,
        destination: Endpoint,
    ) -> (r: Option<Result<&'static str, DecodeError>>)
        requires
            old(self).wf(),
        ensures
            final(self).wf(),
            r is None <==> spec_receive(old(self).spec_framing().pending(), payload@) is None,
            r is Some ==> match spec_receive(old(self).spec_framing().pending(), payload@) {
                Some((s, pend, ms, enc)) => {
                    &&& r matches Some(Ok(status)) && status@ == s
                    &&& final(self).spec_framing().pending() == pend
                    &&& framed_appended(
                        old(self).spec_framed(),
                        final(self).spec_framed(),
                        ms,
                        packet_number,
                        source,
                        destination,
                    )
                    &&& final(self).spec_extractor().player_state.spec_has_encrypted_data() == (
                    old(self).spec_extractor().player_state.spec_has_encrypted_data() || enc)
                },
                None => false,
            },
            final(self).spec_decoded() == old(self).spec_decoded(),
    {
        let (status, encrypted) = match self.framing.receive_packet(payload) {
            Some(x) => x,
            None => {
                self.framing.take_messages();
                return None;
            },
        };
        if encrypted {
            self.extractor.mark_encrypted_data_seen();
        }
        let mut messages = self.framing.take_messages();
        let ghost framing1 = self.framing;
        let ghost extractor1 = self.extractor;
        let ghost decoded1 = self.decoded_packets@;
        let ghost ms = framed_views(messages@);
        let ghost framed0 = self.spec_framed();
        let ghost n0 = framed0.len();
        let metadata = PacketMetadata::new(self.source_name.clone(), packet_number, source, destination);
        let mut k: usize = 0;
        let total = messages.len();
        while messages.len() > 0
            invariant
                self.wf(),
                k + messages.len() == total,
                total == ms.len(),
                framed_views(messages@) == ms.skip(k as int),
                self.spec_framed().len() == n0 + k,
                self.spec_framed().take(n0 as int) == framed0,
                forall|i: int|
                    0 <= i < k ==> (#[trigger] self.spec_framed()[n0 + i]).1 == ms[i]
                        && self.spec_framed()[n0 + i].0 == metadata,
                metadata.packet_number == packet_number,
                metadata.source == source,
                metadata.destination == destination,
                self.framing == framing1,
                self.extractor == extractor1,
                self.decoded_packets@ == decoded1,
            decreases messages.len(),
        {
            let ghost before = self.spec_framed();
            let ghost msgs0 = messages@;
            let m = messages.remove(0);
            proof {
                assert(framed_views(msgs0)[0] == framed_view(m));
                assert(messages@ =~= msgs0.subrange(1, msgs0.len() as int));
                assert forall|j: int| 0 <= j < messages@.len() implies #[trigger] framed_views(
                    messages@,
                )[j] == ms.skip(k + 1)[j] by {
                    assert(messages@[j] == msgs0[j + 1]);
                    assert(framed_views(msgs0)[j + 1] == ms.skip(
                        k as int,
                    )[j + 1]);
                }
                assert(framed_views(messages@) =~= ms.skip(k + 1));
            }
            self.framed.push((metadata.duplicate(), m));
            proof {
                assert(self.spec_framed() =~= before.push((metadata, framed_view(m))));
            }
            k = k + 1;
        }
        proof {
            assert(self.spec_framed().take(n0 as int) == framed0);
        }
        Some(Ok(status))
    }

    /// Reads a UDP payload's commands, as [`Self::try_receive_packet`]
    /// says; a payload that [`spec_receive`] cannot read is left out by the
    /// requirement.
    pub fn receive_packet(
        &mut self,
        payload: &[u8],
        packet_number: usize,
        source: Endpoint,
        destination: Endpoint,
    ) -> (r: Result<&'static str, DecodeError>)
        requires
            old(self).wf(),
            spec_receive(old(self).spec_framing().pending(), payload@) is Some,
        ensures
            final(self).wf(),
            match spec_receive(old(self).spec_framing().pending(), payload@) {
                Some((s, pend, ms, enc)) => {
                    &&& r matches Ok(status) && status@ == s
                    &&& final(self).spec_framing().pending() == pend
                    &&& framed_appended(
                        old(self).spec_framed(),
                        final(self).spec_framed(),
                        ms,
                        packet_number,
                        source,
                        destination,
                    )
                    &&& final(self).spec_extractor().player_state.spec_has_encrypted_data() == (
                    old(self).spec_extractor().player_state.spec_has_encrypted_data() || enc)
                },
                None => false,
            },
            final(self).spec_decoded() == old(self).spec_decoded(),
    {
        match self.try_receive_packet(payload, packet_number, source, destination) {
            Some(r) => r,
            None => Ok("InvalidHeader"),
        }
    }

    /// Hands out the messages taken out of payloads so far, each with its
    /// packet's metadata, and forgets them.
    pub fn take_framed_messages(&mut self) -> (r: Vec<(PacketMetadata, FramedMessage)>)
        requires
            old(self).wf(),
        ensures
            final(self).wf(),
            r@.map_values(
                |e: (PacketMetadata, FramedMessage)| (e.0, (e.1.message_type, e.1.payload@)),
            ) == old(self).spec_framed(),
            final(self).spec_framed() == Seq::<(PacketMetadata, FramedView)>::empty(),
            final(self).spec_decoded() == old(self).spec_decoded(),
            final(self).spec_extractor() == old(self).spec_extractor(),
    {
        let mut out: Vec<(PacketMetadata, FramedMessage)> = Vec::new();
        std::mem::swap(&mut out, &mut self.framed);
        assert(self.spec_framed() =~= Seq::<(PacketMetadata, FramedView)>::empty());
        out
    }

    fn record_unknown(
        &mut self,
        message_type: &str,
        kind: &str,
        code_parameter: u8,
        raw_code: Option<i32>,
        reason: &str,
        parameters: &RawParameters,
        return_code: Option<i16>,
        debug_message: &str,
        metadata: PacketMetadata,
    )
        requires
            old(self).wf(),
        ensures
            final(self).wf(),
            setup_kept(*old(self), *final(self)),
            final(self).spec_extractor() == old(self).spec_extractor(),
            final(self).spec_decoded().len() == old(self).spec_decoded().len() + 1,
            final(self).spec_decoded().drop_last() == old(self).spec_decoded(),
            final(self).spec_decoded().last() matches DecodedPacket::Unknown(u)
                && is_unknown_record(
                u,
                old(self).spec_source_name(),
                message_type@,
                kind@,
                code_parameter,
                raw_code,
                reason@,
                parameters.view(),
                return_code,
                debug_message@,
                metadata,
            ),
    {
        let u = DecodedUnknown {
            metadata,
            file: self.source_name.clone(),
            message_type: to_owned_string(message_type),
            kind: to_owned_string(kind),
            code_parameter,
            raw_code,
            reason: to_owned_string(reason),
            return_code,
            debug_message: to_owned_string(debug_message),
            parameters: parameters.to_serializable(),
        };
        self.decoded_packets.push(DecodedPacket::Unknown(u));
        assert(self.decoded_packets@.drop_last() =~= old(self).decoded_packets@);
    }

    /// Records an operation message with its decoded parameters, as
    /// [`operation_recorded`] says.
    pub fn record_operation(
        &mut self,
        packet_kind: OperationPacketKind,
        parameters: RawParameters,
        return_code: Option<i16>,
        debug_message: &str,
        metadata: PacketMetadata,
    ) -> (r: Result<(), DecodeError>)
        requires
            old(self).wf(),
        ensures
            final(self).wf(),
            operation_recorded(
                *old(self),
                packet_kind,
                parameters.view(),
                return_code,
                debug_message@,
                metadata,
                *final(self),
                r,
            ),
    {
        let result = parse_operation_code(&self.codes, &parameters);
        let ghost res = result;
        match result {
            Ok(code) => {
                let ghost ex0 = self.extractor;
                let extracted = self.extractor.extract_operation(
                    packet_kind,
                    code,
                    &parameters,
                    return_code,
                );
                let number = match param_i64(&parameters, 253) {
                    Some(v) => to_signed_short(v),
                    None => 0,
                };
                let d = DecodedOperation {
                    metadata,
                    file: self.source_name.clone(),
                    message_type: to_owned_string(packet_kind.message_type()),
                    code,
                    number,
                    name: to_owned_string(code.name()),
                    return_code,
                    debug_message: to_owned_string(debug_message),
                    parameters: parameters.to_serializable(),
                    extracted,
                };
                let ghost dg = d;
                let ghost ex1 = self.extractor;
                let ghost now = choose|now: i64|
                        operation_outcome(
                            ex0,
                            packet_kind,
                            code,
                            parameters.view(),
                            return_code,
                            now,
                            ex1,
                            dg.extracted,
                        );
                self.decoded_packets.push(DecodedPacket::Operation(d));
                proof {
                    assert(self.decoded_packets@.drop_last() =~= old(self).decoded_packets@);
                    assert(operation_code_result(old(self).spec_codes(), parameters.view(), res));
                    assert(self.spec_decoded().last() == DecodedPacket::Operation(dg));
                    assert(is_operation_record(
                        dg,
                        old(self).spec_source_name(),
                        packet_kind,
                        code,
                        parameters.view(),
                        return_code,
                        debug_message@,
                        metadata,
                    ));
                    assert(old(self).spec_extractor() == ex0);
                    assert(self.spec_extractor() == ex1);
                    assert(operation_outcome(
                        old(self).spec_extractor(),
                        packet_kind,
                        code,
                        parameters.view(),
                        return_code,
                        now,
                        self.spec_extractor(),
                        dg.extracted,
                    ));
                }
                Ok(())
            },
            Err(e) => {
                let r = if self.capture_unknown_packets {
                    self.record_unknown(
                        packet_kind.message_type(),
                        packet_kind.message_type(),
                        253,
                        e.raw_code,
                        e.reason,
                        &parameters,
                        return_code,
                        debug_message,
                        metadata,
                    );
                    Ok(())
                } else {
                    Err(DecodeError(e.message))
                };
                assert(operation_code_result(old(self).spec_codes(), parameters.view(), res));
                r
            },
        }
    }

    /// Records an event with its decoded parameters and the event byte of
    /// its message, as [`event_recorded`] says.
    pub fn record_event(&mut self, photon_event_code: u8, parameters: RawParameters, metadata: PacketMetadata) -> (r:
        Result<(), DecodeError>)
        requires
            old(self).wf(),
        ensures
            final(self).wf(),
            event_recorded(*old(self), photon_event_code, parameters.view(), metadata, *final(self), r),
    {
        let ghost p0 = parameters.view();
        let mut parameters = parameters;
        match self.codes.event_number(EventCode::Move) {
            Some(n) => {
                if n == photon_event_code as i32 {
                    parameters.insert(252, ParamValue::integer(n as i64));
                }
            },
            None => {},
        }
        let ghost q = parameters.view();
        let result = parse_event_code(&self.codes, &parameters);
        let ghost res = result;
        match result {
            Ok(code) => {
                let ghost ex0 = self.extractor;
                let extracted = self.extractor.extract_event(code, &parameters);
                let raw = match param_i64(&parameters, 252) {
                    Some(v) => to_signed_short(v),
                    None => 0,
                };
                let number = match self.codes.event(raw) {
                    Some(_) => raw,
                    None => (if raw < 0 {
                        raw + 65536
                    } else {
                        raw
                    }) / 16,
                };
                let d = DecodedEvent {
                    metadata,
                    file: self.source_name.clone(),
                    message_type: to_owned_string("event"),
                    code,
                    number,
                    name: to_owned_string(code.name()),
                    return_code: None,
                    debug_message: String::new(),
                    parameters: parameters.to_serializable(),
                    extracted,
                };
                let ghost dg = d;
                let ghost ex1 = self.extractor;
                self.decoded_packets.push(DecodedPacket::Event(d));
                proof {
                    reveal_strlit("event");
                    assert(self.decoded_packets@.drop_last() =~= old(self).decoded_packets@);
                    assert(self.spec_decoded().last() == DecodedPacket::Event(dg));
                    assert(old(self).spec_extractor() == ex0);
                    assert(self.spec_extractor() == ex1);
                    assert(event_parameters(old(self).spec_codes(), photon_event_code, p0, q));
                    assert(event_code_result(old(self).spec_codes(), q, res));
                }
                Ok(())
            },
            Err(e) => {
                let r = if self.capture_unknown_packets {
                    self.record_unknown(
                        "event",
                        "event",
                        252,
                        e.raw_code,
                        e.reason,
                        &parameters,
                        None,
                        "",
                        metadata,
                    );
                    Ok(())
                } else {
                    Err(DecodeError(e.message))
                };
                proof {
                    reveal_strlit("");
                    assert(""@ =~= Seq::<char>::empty());
                    assert(event_parameters(old(self).spec_codes(), photon_event_code, p0, q));
                    assert(event_code_result(old(self).spec_codes(), q, res));
                }
                r
            },
        }
    }
}

} // verus!
