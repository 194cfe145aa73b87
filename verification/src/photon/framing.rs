//! Photon command framing: the commands in a UDP payload, and the messages
//! they carry, with fragmented messages put back together.
//!
//! A payload starts with a 12-byte header: byte 2 holds the flags (1 means
//! encrypted), byte 3 the number of commands. Each command starts with a
//! 12-byte header: its type in byte 0, its length (header included) as a
//! big-endian `i32` at byte 4. Reliable commands (6) carry a message;
//! unreliable ones (7) carry one after four more bytes; fragments (8) carry
//! part of a message, with the first fragment's sequence number at byte 0,
//! the message's total length at byte 12 and the fragment's place in it at
//! byte 16, the data after byte 20. A message's second byte is its type:
//! 2 an operation request, 3 a response, 4 an event, 131 encrypted.

use vstd::prelude::*;
use std::collections::HashMap;
use crate::text::str_eq;
use crate::util::{read_i32_be, spec_u32_be};

verus! {

broadcast use vstd::std_specs::hash::group_hash_axioms;

/// A message taken out of the framing: its type byte and its bytes after
/// the two-byte message header.
#[derive(Debug)]
pub struct FramedMessage {
    pub message_type: u8,
    pub payload: Vec<u8>,
}

pub type FramedView = (u8, Seq<u8>);

pub open spec fn framed_view(m: FramedMessage) -> FramedView {
    (m.message_type, m.payload@)
}

/// The type and bytes of each message.
pub open spec fn framed_views(v: Seq<FramedMessage>) -> Seq<FramedView> {
    v.map_values(|m: FramedMessage| framed_view(m))
}

/// A message being put back together from fragments.
pub struct PendingSegment {
    payload: Vec<u8>,
    written: usize,
    total_length: usize,
}

/// A message in the making: its bytes so far, the number of bytes written,
/// the number it needs.
pub type PendingView = (Seq<u8>, nat, nat);

pub closed spec fn pending_view(p: PendingSegment) -> PendingView {
    (p.payload@, p.written as nat, p.total_length as nat)
}

/// The big-endian `i32` at `at`.
pub open spec fn be_i32(d: Seq<u8>, at: int) -> int {
    spec_u32_be(d, at) as i32 as int
}

/// The status texts the framing reports.
pub open spec fn invalid_header() -> Seq<char> {
    "InvalidHeader"@
}

/// What a message at `offset` of `cl` bytes gives: status, offset after
/// it, the message taken out (requests, responses and events), and whether
/// it was encrypted.
pub open spec fn spec_reliable(d: Seq<u8>, offset: int, cl: int) -> (
    Seq<char>,
    int,
    Option<FramedView>,
    bool,
) {
    if cl < 2 || d.len() - offset < cl {
        (invalid_header(), offset, None, false)
    } else if d[offset + 1] == 131 {
        ("Encrypted"@, offset + cl, None, true)
    } else if d[offset + 1] == 2 || d[offset + 1] == 3 || d[offset + 1] == 4 {
        ("Success"@, offset + cl, Some((d[offset + 1], d.subrange(offset + 2, offset + cl))), false)
    } else {
        ("Success"@, offset + cl, None, false)
    }
}

/// `n` zero bytes.
pub open spec fn zeros(n: nat) -> Seq<u8> {
    Seq::new(n, |i: int| 0u8)
}

/// One framing step's outcome: status, offset after it, messages in the
/// making, the message completed, whether it was encrypted. `None` when
/// the framing cannot go on: a fragment that does not fit (see each function).
pub type StepView = (Seq<char>, int, Map<i32, PendingView>, Option<FramedView>, bool);

/// What a fragment at `offset` of `cl` bytes gives. Its bytes are written
/// at their place in the message of its first sequence number (a new one
/// of the announced length when none is pending); once as many bytes as the
/// message needs were written, the message is complete and read as a
/// reliable one. `None` when a new message's length is negative or the
/// fragment does not fit in its message.
pub open spec fn spec_fragment(pend: Map<i32, PendingView>, d: Seq<u8>, offset: int, cl: int) -> Option<
    StepView,
> {
    if cl < 20 || d.len() - offset < cl {
        Some((invalid_header(), offset, pend, None, false))
    } else {
        let start = be_i32(d, offset) as i32;
        let total = be_i32(d, offset + 12);
        let foff = be_i32(d, offset + 16);
        let o = offset + 20;
        let flen = cl - 20;
        let frag = d.subrange(o, o + flen);
        if !pend.contains_key(start) && total < 0 {
            None
        } else {
            let cur = if pend.contains_key(start) {
                pend[start]
            } else {
                (zeros(total as nat), 0nat, total as nat)
            };
            if foff < 0 || foff + flen > cur.0.len() {
                None
            } else {
                let buf = cur.0.take(foff) + frag + cur.0.skip(foff + flen);
                let written = cur.1 + flen;
                if written >= cur.2 {
                    let (status, _, msg, enc) = spec_reliable(buf, 0, buf.len() as int);
                    Some((status, o + flen, pend.remove(start), msg, enc))
                } else {
                    Some(("Success"@, o + flen, pend.insert(start, (buf, written as nat, cur.2)), None, false))
                }
            }
        }
    }
}

/// What the command at `offset` gives (the caller has checked that its
/// header is there). `None` where the fragment does, or when the length
/// field is so negative that taking the header off it overflows.
pub open spec fn spec_command(pend: Map<i32, PendingView>, d: Seq<u8>, offset: int) -> Option<StepView> {
    let ct = d[offset];
    let raw = be_i32(d, offset + 4);
    let o = offset + 12;
    let cl = raw - 12;
    if cl < i32::MIN {
        None
    } else if cl < 0 || d.len() - o < cl {
        Some((invalid_header(), o, pend, None, false))
    } else if ct == 4 {
        Some(("DisconnectCommand"@, o + cl, pend, None, false))
    } else if ct == 7 {
        if cl < 4 {
            Some((invalid_header(), o, pend, None, false))
        } else {
            let (s, n, m, e) = spec_reliable(d, o + 4, cl - 4);
            Some((s, n, pend, m, e))
        }
    } else if ct == 6 {
        let (s, n, m, e) = spec_reliable(d, o, cl);
        Some((s, n, pend, m, e))
    } else if ct == 8 {
        spec_fragment(pend, d, o, cl)
    } else {
        Some(("Undefined"@, o + cl, pend, None, false))
    }
}

pub open spec fn opt_seq(m: Option<FramedView>) -> Seq<FramedView> {
    match m {
        Some(x) => seq![x],
        None => Seq::empty(),
    }
}

/// What the `remaining` commands from `offset` give, after a command that
/// reported `status`: the last status, messages in the making, the
/// messages completed in order, whether any was encrypted. A command whose
/// header is cut short, or whose status is `InvalidHeader`, ends the run
/// with that status.
pub open spec fn spec_commands(
    pend: Map<i32, PendingView>,
    d: Seq<u8>,
    offset: int,
    remaining: nat,
    status: Seq<char>,
) -> Option<(Seq<char>, Map<i32, PendingView>, Seq<FramedView>, bool)>
    decreases remaining,
{
    if remaining == 0 {
        Some((status, pend, Seq::empty(), false))
    } else if d.len() - offset < 12 {
        Some((invalid_header(), pend, Seq::empty(), false))
    } else {
        match spec_command(pend, d, offset) {
            None => None,
            Some((st, next, p, msg, enc)) => if st == invalid_header() {
                Some((st, p, opt_seq(msg), enc))
            } else {
                match spec_commands(p, d, next, (remaining - 1) as nat, st) {
                    None => None,
                    Some((s2, p2, ms, e2)) => Some((s2, p2, opt_seq(msg) + ms, enc || e2)),
                }
            },
        }
    }
}

/// What a UDP payload gives: status, messages in the making, messages
/// completed, whether it was encrypted. A payload shorter than its header
/// is `InvalidHeader`; an encrypted one (flags 1) is `Encrypted`; otherwise
/// its commands are read in turn, from status `Undefined`.
pub open spec fn spec_receive(pend: Map<i32, PendingView>, payload: Seq<u8>) -> Option<
    (Seq<char>, Map<i32, PendingView>, Seq<FramedView>, bool),
> {
    if payload.len() < 12 {
        Some((invalid_header(), pend, Seq::empty(), false))
    } else if payload[2] == 1 {
        Some(("Encrypted"@, pend, Seq::empty(), true))
    } else {
        spec_commands(pend, payload, 12, payload[3] as nat, "Undefined"@)
    }
}

/// The framing state: messages in the making and messages completed.
pub struct PhotonFraming {
    pending_segments: HashMap<i32, PendingSegment>,
    messages: Vec<FramedMessage>,
}

impl PhotonFraming {
    /// Messages in the making, by the first fragment's sequence number.
    pub closed spec fn pending(&self) -> Map<i32, PendingView> {
        self.pending_segments@.map_values(|p: PendingSegment| pending_view(p))
    }

    /// The messages completed so far, in order.
    pub closed spec fn completed(&self) -> Seq<FramedView> {
        framed_views(self.messages@)
    }

    /// Every message in the making has a length that an `i32` holds, is that
    /// long, and still needs bytes.
    pub closed spec fn wf(&self) -> bool {
        forall|k: i32| #[trigger]
            self.pending_segments@.contains_key(k) ==> {
                let p = self.pending_segments@[k];
                &&& p.payload@.len() == p.total_length
                &&& p.total_length <= i32::MAX
                &&& p.written < p.total_length
            }
    }

    /// Nothing pending, nothing completed.
    pub fn new() -> (r: PhotonFraming)
        ensures
            r.wf(),
            r.pending() == Map::<i32, PendingView>::empty(),
            r.completed() == Seq::<FramedView>::empty(),
    {
        let r = PhotonFraming { pending_segments: HashMap::new(), messages: Vec::new() };
        assert(r.pending() =~= Map::<i32, PendingView>::empty());
        assert(r.completed() =~= Seq::<FramedView>::empty());
        r
    }

    /// Hands out the messages completed so far, in order, and forgets them.
    pub fn take_messages(&mut self) -> (r: Vec<FramedMessage>)
        requires
            old(self).wf(),
        ensures
            final(self).wf(),
            framed_views(r@) == old(self).completed(),
            final(self).completed() == Seq::<FramedView>::empty(),
            final(self).pending() == old(self).pending(),
    {
        let mut out: Vec<FramedMessage> = Vec::new();
        std::mem::swap(&mut out, &mut self.messages);
        assert(self.completed() =~= Seq::<FramedView>::empty());
        out
    }

    fn push_message(&mut self, message_type: u8, payload: Vec<u8>)
        requires
            old(self).wf(),
        ensures
            final(self).wf(),
            final(self).pending() == old(self).pending(),
            final(self).completed() == old(self).completed().push((message_type, payload@)),
    {
        let ghost before = self.messages@;
        self.messages.push(FramedMessage { message_type, payload });
        assert(self.completed() =~= old(self).completed().push((message_type, payload@)));
    }

    /// Reads a message, as [`spec_reliable`] says; the message is appended
    /// to the completed ones. Returns status, offset after, and whether it
    /// was encrypted.
    fn handle_send_reliable(&mut self, data: &[u8], offset: usize, command_length: usize) -> (r: (
        &'static str,
        usize,
        bool,
    ))
        requires
            old(self).wf(),
            offset <= data.len(),
        ensures
            final(self).wf(),
            final(self).pending() == old(self).pending(),
            ({
                let (s, n, m, e) = spec_reliable(data@, offset as int, command_length as int);
                &&& r.0@ == s
                &&& r.1 == n
                &&& r.2 == e
                &&& final(self).completed() == old(self).completed() + opt_seq(m)
            }),
            r.1 <= data.len(),
    {
        if command_length < 2 || data.len() - offset < command_length {
            assert(self.completed() + opt_seq(None) =~= self.completed());
            return ("InvalidHeader", offset, false);
        }
        let message_type = data[offset + 1];
        if message_type == 131 {
            assert(self.completed() + opt_seq(None) =~= self.completed());
            return ("Encrypted", offset + command_length, true);
        }
        if message_type == 2 || message_type == 3 || message_type == 4 {
            let payload = vstd::slice::slice_to_vec(
                vstd::slice::slice_subrange(data, offset + 2, offset + command_length),
            );
            let ghost before = self.completed();
            self.push_message(message_type, payload);
            assert(before.push((message_type, payload@)) =~= before + opt_seq(
                Some((message_type, payload@)),
            ));
        } else {
            assert(self.completed() + opt_seq(None) =~= self.completed());
        }
        ("Success", offset + command_length, false)
    }

    /// Writes a fragment, as [`spec_fragment`] says; a completed message
    /// is appended to the completed ones. Returns status, offset after, and
    /// whether the completed message was encrypted.
    fn handle_send_fragment(&mut self, data: &[u8], offset: usize, command_length: usize) -> (r: Option<(
        &'static str,
        usize,
        bool,
    )>)
        requires
            old(self).wf(),
            offset <= data.len(),
        ensures
            final(self).wf(),
            match r {
                None => spec_fragment(old(self).pending(), data@, offset as int, command_length as int) is None,
                Some((st, next, enc)) => match spec_fragment(old(self).pending(), data@, offset as int, command_length as int) {
                    Some((s, n, p, m, e)) => {
                        &&& st@ == s
                        &&& next == n
                        &&& enc == e
                        &&& final(self).pending() == p
                        &&& final(self).completed() == old(self).completed() + opt_seq(m)
                        &&& next <= data.len()
                    },
                    None => false,
                },
            },
    {
        if command_length < 20 || data.len() - offset < command_length {
            assert(self.completed() + opt_seq(None) =~= self.completed());
            return Some(("InvalidHeader", offset, false));
        }
        let start = read_i32_be(data, offset);
        let total = read_i32_be(data, offset + 12);
        let foff = read_i32_be(data, offset + 16);
        let o = offset + 20;
        let flen = command_length - 20;
        let ghost pend0 = self.pending();
        let ghost frag = data@.subrange(o as int, o + flen);
        let ghost map0 = self.pending_segments@;
        let mut seg = match self.pending_segments.remove(&start) {
            Some(seg) => {
                assert(map0.contains_key(start));
                seg
            },
            None => {
                if total < 0 {
                    return None;
                }
                let n = total as usize;
                let mut zero_bytes: Vec<u8> = Vec::new();
                let mut i: usize = 0;
                while i < n
                    invariant
                        i <= n,
                        zero_bytes@ == zeros(i as nat),
                    decreases n - i,
                {
                    zero_bytes.push(0u8);
                    assert(zero_bytes@ =~= zeros((i + 1) as nat));
                    i = i + 1;
                }
                PendingSegment { payload: zero_bytes, written: 0, total_length: n }
            },
        };
        assert(self.pending_segments@ == map0.remove(start));
        let ghost cur = pending_view(seg);
        assert(cur == (if pend0.contains_key(start) {
            pend0[start]
        } else {
            (zeros(total as nat), 0nat, total as nat)
        }));
        if foff < 0 || foff as usize > seg.payload.len() || flen > seg.payload.len() - foff as usize {
            return None;
        }
        let fo = foff as usize;
        let ghost buf0 = seg.payload@;
        let mut j: usize = 0;
        while j < flen
            invariant
                j <= flen,
                fo + flen <= buf0.len(),
                fo + flen <= seg.payload.len(),
                o + flen <= data.len(),
                seg.payload@.len() == buf0.len(),
                seg.written == cur.1,
                seg.total_length == cur.2,
                forall|k: int| 0 <= k < fo ==> seg.payload@[k] == buf0[k],
                forall|k: int| fo <= k < fo + j ==> seg.payload@[k] == data@[o + k - fo],
                forall|k: int| fo + j <= k < buf0.len() ==> seg.payload@[k] == buf0[k],
            decreases flen - j,
        {
            seg.payload.set(fo + j, data[o + j]);
            j = j + 1;
        }
        let ghost buf = buf0.take(fo as int) + frag + buf0.skip(fo + flen);
        assert(seg.payload@ =~= buf);
        seg.written = seg.written + flen;
        if seg.written >= seg.total_length {
            let total_payload = seg.payload;
            let (status, _, enc) = self.handle_send_reliable(
                &total_payload,
                0,
                total_payload.len(),
            );
            proof {
                assert(self.pending() =~= pend0.remove(start));
            }
            return Some((status, o + flen, enc));
        }
        let ghost seg_view = pending_view(seg);
        self.pending_segments.insert(start, seg);
        proof {
            assert(self.pending() =~= pend0.insert(start, seg_view));
            assert(self.completed() + opt_seq(None) =~= self.completed());
        }
        Some(("Success", o + flen, false))
    }

    /// Reads the command at `offset`, as [`spec_command`] says.
    fn handle_command(&mut self, data: &[u8], offset: usize) -> (r: Option<(&'static str, usize, bool)>)
        requires
            old(self).wf(),
            offset <= data.len(),
            data.len() - offset >= 12,
        ensures
            final(self).wf(),
            match r {
                None => spec_command(old(self).pending(), data@, offset as int) is None,
                Some((st, next, enc)) => match spec_command(old(self).pending(), data@, offset as int) {
                    Some((s, n, p, m, e)) => {
                        &&& st@ == s
                        &&& next == n
                        &&& enc == e
                        &&& final(self).pending() == p
                        &&& final(self).completed() == old(self).completed() + opt_seq(m)
                        &&& next <= data.len()
                    },
                    None => false,
                },
            },
    {
        let command_type = data[offset];
        let raw = read_i32_be(data, offset + 4);
        if raw < i32::MIN + 12 {
            return None;
        }
        let command_length = raw - 12;
        let o = offset + 12;
        if command_length < 0 || ((data.len() - o) as u64) < command_length as u64 {
            assert(self.completed() + opt_seq(None) =~= self.completed());
            return Some(("InvalidHeader", o, false));
        }
        let cl = command_length as usize;
        if command_type == 4 {
            assert(self.completed() + opt_seq(None) =~= self.completed());
            Some(("DisconnectCommand", o + cl, false))
        } else if command_type == 7 {
            if cl < 4 {
                assert(self.completed() + opt_seq(None) =~= self.completed());
                return Some(("InvalidHeader", o, false));
            }
            Some(self.handle_send_reliable(data, o + 4, cl - 4))
        } else if command_type == 6 {
            Some(self.handle_send_reliable(data, o, cl))
        } else if command_type == 8 {
            self.handle_send_fragment(data, o, cl)
        } else {
            assert(self.completed() + opt_seq(None) =~= self.completed());
            Some(("Undefined", o + cl, false))
        }
    }

    /// Reads a UDP payload's commands, as [`spec_receive`] says. Returns
    /// the status and whether anything in it was encrypted.
    pub fn receive_packet(&mut self, payload: &[u8]) -> (r: Option<(&'static str, bool)>)
        requires
            old(self).wf(),
        ensures
            final(self).wf(),
            match r {
                None => spec_receive(old(self).pending(), payload@) is None,
                Some((st, enc)) => match spec_receive(old(self).pending(), payload@) {
                    Some((s, p, ms, e)) => {
                        &&& st@ == s
                        &&& enc == e
                        &&& final(self).pending() == p
                        &&& final(self).completed() == old(self).completed() + ms
                    },
                    None => false,
                },
            },
    {
        if payload.len() < 12 {
            assert(self.completed() + Seq::<FramedView>::empty() =~= self.completed());
            return Some(("InvalidHeader", false));
        }
        let flags = payload[2];
        let command_count = payload[3];
        if flags == 1 {
            assert(self.completed() + Seq::<FramedView>::empty() =~= self.completed());
            return Some(("Encrypted", true));
        }
        self.handle_commands(payload, 12, command_count, "Undefined")
    }

    /// Reads `remaining` commands from `offset` after one that reported
    /// `status`, as [`spec_commands`] says.
    fn handle_commands(&mut self, data: &[u8], offset: usize, remaining: u8, status: &'static str) -> (r: Option<(
        &'static str,
        bool,
    )>)
        requires
            old(self).wf(),
            offset <= data.len(),
        ensures
            final(self).wf(),
            match r {
                None => spec_commands(old(self).pending(), data@, offset as int, remaining as nat, status@) is None,
                Some((st, enc)) => match spec_commands(old(self).pending(), data@, offset as int, remaining as nat, status@) {
                    Some((s, p, ms, e)) => {
                        &&& st@ == s
                        &&& enc == e
                        &&& final(self).pending() == p
                        &&& final(self).completed() == old(self).completed() + ms
                    },
                    None => false,
                },
            },
        decreases remaining,
    {
        if remaining == 0 {
            assert(self.completed() + Seq::<FramedView>::empty() =~= self.completed());
            return Some((status, false));
        }
        if data.len() - offset < 12 {
            assert(self.completed() + Seq::<FramedView>::empty() =~= self.completed());
            return Some(("InvalidHeader", false));
        }
        let ghost pend0 = self.pending();
        let ghost done0 = self.completed();
        let (st, next, enc) = match self.handle_command(data, offset) {
            Some(x) => x,
            None => return None,
        };
        let ghost m = spec_command(pend0, data@, offset as int)->Some_0.3;
        if str_eq(st, "InvalidHeader") {
            proof {
                reveal_strlit("InvalidHeader");
            }
            return Some((st, enc));
        }
        proof {
            reveal_strlit("InvalidHeader");
        }
        let ghost done1 = self.completed();
        let (s2, e2) = match self.handle_commands(data, next, remaining - 1, st) {
            Some(x) => x,
            None => return None,
        };
        proof {
            match spec_commands(pend0, data@, offset as int, remaining as nat, status@) {
                Some((s, p, ms, e)) => {
                    let rest = spec_commands(
                        spec_command(pend0, data@, offset as int)->Some_0.2,
                        data@,
                        next as int,
                        (remaining - 1) as nat,
                        st@,
                    )->Some_0.2;
                    assert(ms == opt_seq(m) + rest);
                    assert(done0 + (opt_seq(m) + rest) =~= (done0 + opt_seq(m)) + rest);
                },
                None => {},
            }
        }
        Some((s2, enc || e2))
    }
}


/// A message sent in two fragments, in order, is handled as if it had come
/// whole in one reliable command: the first fragment only holds it back,
/// and the second completes it and leaves nothing pending of it.
pub proof fn law_fragments_reassemble(
    pend: Map<i32, PendingView>,
    d1: Seq<u8>,
    o1: int,
    cl1: int,
    d2: Seq<u8>,
    o2: int,
    cl2: int,
    msg: Seq<u8>,
)
    requires
        0 <= o1 && cl1 >= 20 && o1 + cl1 <= d1.len(),
        0 <= o2 && cl2 >= 20 && o2 + cl2 <= d2.len(),
        be_i32(d1, o1) == be_i32(d2, o2),
        !pend.contains_key(be_i32(d1, o1) as i32),
        be_i32(d1, o1 + 12) == msg.len(),
        be_i32(d1, o1 + 16) == 0,
        be_i32(d2, o2 + 16) == cl1 - 20,
        0 < cl1 - 20 < msg.len(),
        cl1 - 20 + cl2 - 20 == msg.len(),
        d1.subrange(o1 + 20, o1 + cl1) == msg.take(cl1 - 20),
        d2.subrange(o2 + 20, o2 + cl2) == msg.skip(cl1 - 20),
    ensures
        ({
            let first = spec_fragment(pend, d1, o1, cl1);
            &&& first matches Some((s1, n1, p1, m1, e1)) && s1 == "Success"@ && m1 is None && !e1
                && p1.contains_key(be_i32(d1, o1) as i32)
            &&& spec_fragment(first->Some_0.2, d2, o2, cl2) matches Some((s2, n2, p2, m2, e2))
                && p2 == pend && (s2, m2, e2) == ({
                let (s, _, m, e) = spec_reliable(msg, 0, msg.len() as int);
                (s, m, e)
            })
        }),
{
    let start = be_i32(d1, o1) as i32;
    let k = cl1 - 20;
    let n = msg.len();
    let buf1 = zeros(n as nat).take(0) + d1.subrange(o1 + 20, o1 + 20 + k) + zeros(n as nat).skip(k);
    assert(buf1 =~= msg.take(k) + zeros((n - k) as nat));
    assert(be_i32(d2, o2) as i32 == start);
    let p1 = pend.insert(start, (buf1, k as nat, n as nat));
    assert(spec_fragment(pend, d1, o1, cl1) == Some(
        ("Success"@, o1 + cl1, p1, None::<FramedView>, false),
    ));
    let buf2 = buf1.take(k) + d2.subrange(o2 + 20, o2 + 20 + (cl2 - 20)) + buf1.skip(k + (cl2 - 20));
    assert(buf2 =~= msg);
    assert(p1.remove(start) =~= pend);
}

/// An unreliable command (type 7) carries its message after a four-byte
/// unreliable sequence number: with `cl` bytes after its 12-byte header,
/// the message type is the second byte after that number and the message
/// bytes are the rest of the command. Requests, responses and events
/// (types 2, 3, 4) are taken out; the command ends `cl` bytes after its
/// header; nothing pending changes.
pub proof fn law_unreliable_command_carries_its_message(
    pend: Map<i32, PendingView>,
    d: Seq<u8>,
    o: int,
)
    requires
        0 <= o,
        o + 12 <= d.len(),
        d[o] == 7,
        6 <= be_i32(d, o + 4) - 12,
        o + be_i32(d, o + 4) <= d.len(),
        d[o + 17] != 131,
    ensures
        ({
            let cl = be_i32(d, o + 4) - 12;
            let t = d[o + 17];
            spec_command(pend, d, o) == Some(
                (
                    "Success"@,
                    o + 12 + cl,
                    pend,
                    if t == 2 || t == 3 || t == 4 {
                        Some((t, d.subrange(o + 18, o + 12 + cl)))
                    } else {
                        None
                    },
                    false,
                ),
            )
        }),
{
}

/// An unreliable command whose message is flagged encrypted (type byte
/// 131) reports `Encrypted` and takes nothing out.
pub proof fn law_unreliable_encrypted_message(pend: Map<i32, PendingView>, d: Seq<u8>, o: int)
    requires
        0 <= o,
        o + 12 <= d.len(),
        d[o] == 7,
        6 <= be_i32(d, o + 4) - 12,
        o + be_i32(d, o + 4) <= d.len(),
        d[o + 17] == 131,
    ensures
        spec_command(pend, d, o) == Some(
            ("Encrypted"@, o + be_i32(d, o + 4), pend, None::<FramedView>, true),
        ),
{
}

} // verus!
