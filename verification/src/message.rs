//! The framed control-message protocol: a signature-synchronized,
//! length-prefixed codec that turns any byte-oriented connection into a
//! sequence of discrete, typed messages.
//!
//! Wire format of one frame: `SIGNATURE (6 bytes) | LENGTH (4-byte
//! big-endian) | PAYLOAD (LENGTH bytes)`. The payload is the message in
//! a fixed little-endian layout: a 4-byte tag, then the variant's fields
//! as fixed-width integers. The reader scans byte by byte for the
//! signature, resynchronizing after any mismatch, and silently discards
//! frames whose payload does not decode, so interleaved corruption never
//! aborts the stream.

use vstd::prelude::*;

use crate::bytes::{
    spec_u32_from_be, spec_u32_from_le, spec_u32_to_be, spec_u32_to_le, spec_u64_from_le,
    spec_u64_to_le, tail_from, u32_from_be, u32_from_le, u32_to_be, u32_to_le, u64_from_le,
    u64_to_le,
};
use crate::test::TestPlan;
use crate::transport::{Connection, IoError, IoErrorKind, SetReadTimeout, TransportMode};

verus! {

/// How the codec fails: an underlying I/O failure, or the distinguished
/// timeout that only the timeout-bounded read produces.
#[derive(Clone, Copy, Debug, PartialEq, Eq, Structural)]
pub enum Error {
    Io { error: IoError },
    ReadTimeout,
}

/// Opens a session: carries the proposing side's transport mode and the
/// test plan both ends will follow.
#[derive(Clone, Copy, Debug, PartialEq, Eq, Structural)]
pub struct Syn {
    pub mode: TransportMode,
    pub options: TestPlan,
}

/// Confirms a session: echoes the plan and assigns the session id.
#[derive(Clone, Copy, Debug, PartialEq, Eq, Structural)]
pub struct SynAck {
    pub test_id: usize,
    pub test_plan: TestPlan,
}

/// The control message vocabulary. `Fin`/`FinAck` close a session
/// gracefully on connection-oriented transports.
#[derive(Clone, Copy, Debug, PartialEq, Eq, Structural)]
pub enum Message {
    Syn(Syn),
    SynAck(SynAck),
    Fin,
    FinAck,
}

pub open spec fn spec_mode_tag(mode: TransportMode) -> u32 {
    match mode {
        TransportMode::Send => 0,
        TransportMode::Receive => 1,
    }
}

pub open spec fn spec_encode_plan(plan: TestPlan) -> Seq<u8> {
    spec_u64_to_le(plan.duration_ms) + spec_u64_to_le(plan.packet_size as u64)
}

/// The payload bytes of a message: a little-endian 4-byte tag, then the
/// variant's fields as fixed-width little-endian integers.
pub open spec fn spec_encode_payload(m: Message) -> Seq<u8> {
    match m {
        Message::Syn(syn) => spec_u32_to_le(0) + spec_u32_to_le(spec_mode_tag(syn.mode))
            + spec_encode_plan(syn.options),
        Message::SynAck(ack) => spec_u32_to_le(1) + spec_u64_to_le(ack.test_id as u64)
            + spec_encode_plan(ack.test_plan),
        Message::Fin => spec_u32_to_le(2),
        Message::FinAck => spec_u32_to_le(3),
    }
}

pub open spec fn spec_decode_plan(b: Seq<u8>) -> Option<TestPlan>
    recommends
        b.len() == 16,
{
    let duration_ms = spec_u64_from_le(b.subrange(0, 8));
    let packet_size = spec_u64_from_le(b.subrange(8, 16));
    if packet_size <= usize::MAX as u64 {
        Some(TestPlan { duration_ms, packet_size: packet_size as usize })
    } else {
        None
    }
}

/// Inverse of `spec_encode_payload`; `None` on any byte sequence that is
/// not exactly one well-formed payload.
pub open spec fn spec_decode_payload(b: Seq<u8>) -> Option<Message> {
    if b.len() < 4 {
        None
    } else {
        let tag = spec_u32_from_le(b.subrange(0, 4));
        if tag == 0 {
            if b.len() == 24 {
                let mode_tag = spec_u32_from_le(b.subrange(4, 8));
                match spec_decode_plan(b.subrange(8, 24)) {
                    Some(plan) => if mode_tag == 0 {
                        Some(Message::Syn(Syn { mode: TransportMode::Send, options: plan }))
                    } else if mode_tag == 1 {
                        Some(Message::Syn(Syn { mode: TransportMode::Receive, options: plan }))
                    } else {
                        None
                    },
                    None => None,
                }
            } else {
                None
            }
        } else if tag == 1 {
            if b.len() == 28 {
                let test_id = spec_u64_from_le(b.subrange(4, 12));
                if test_id <= usize::MAX as u64 {
                    match spec_decode_plan(b.subrange(12, 28)) {
                        Some(plan) => Some(
                            Message::SynAck(SynAck { test_id: test_id as usize, test_plan: plan }),
                        ),
                        None => None,
                    }
                } else {
                    None
                }
            } else {
                None
            }
        } else if tag == 2 {
            if b.len() == 4 {
                Some(Message::Fin)
            } else {
                None
            }
        } else if tag == 3 {
            if b.len() == 4 {
                Some(Message::FinAck)
            } else {
                None
            }
        } else {
            None
        }
    }
}

fn append_bytes(dst: &mut Vec<u8>, src: &Vec<u8>)
    ensures
        final(dst)@ == old(dst)@ + src@,
{
    let mut i: usize = 0;
    while i < src.len()
        invariant
            i <= src@.len(),
            dst@ == old(dst)@ + src@.subrange(0, i as int),
        decreases src@.len() - i,
    {
        dst.push(src[i]);
        i = i + 1;
        proof {
            assert(dst@ =~= old(dst)@ + src@.subrange(0, i as int));
        }
    }
    proof {
        assert(dst@ =~= old(dst)@ + src@);
    }
}

fn encode_plan(plan: &TestPlan) -> (r: Vec<u8>)
    ensures
        r@ == spec_encode_plan(*plan),
{
    let mut r = u64_to_le(plan.duration_ms);
    let size = u64_to_le(plan.packet_size as u64);
    append_bytes(&mut r, &size);
    r
}

/// Serializes a message into its payload bytes.
pub fn encode_payload(message: &Message) -> (r: Vec<u8>)
    ensures
        r@ == spec_encode_payload(*message),
{
    match message {
        Message::Syn(syn) => {
            let mut r = u32_to_le(0);
            let mode = u32_to_le(
                match syn.mode {
                    TransportMode::Send => 0,
                    TransportMode::Receive => 1,
                },
            );
            append_bytes(&mut r, &mode);
            let plan = encode_plan(&syn.options);
            append_bytes(&mut r, &plan);
            r
        },
        Message::SynAck(ack) => {
            let mut r = u32_to_le(1);
            let id = u64_to_le(ack.test_id as u64);
            append_bytes(&mut r, &id);
            let plan = encode_plan(&ack.test_plan);
            append_bytes(&mut r, &plan);
            r
        },
        Message::Fin => u32_to_le(2),
        Message::FinAck => u32_to_le(3),
    }
}

/// Parses payload bytes back into a message; `None` on anything that is
/// not exactly one well-formed payload.
pub fn decode_payload(b: &Vec<u8>) -> (r: Option<Message>)
    ensures
        r == spec_decode_payload(b@),
{
    if b.len() < 4 {
        return None;
    }
    let tag = u32_from_le(b[0], b[1], b[2], b[3]);
    proof {
        assert(seq![b@[0], b@[1], b@[2], b@[3]] =~= b@.subrange(0, 4));
    }
    if tag == 0 {
        if b.len() != 24 {
            return None;
        }
        let mode_tag = u32_from_le(b[4], b[5], b[6], b[7]);
        proof {
            assert(seq![b@[4], b@[5], b@[6], b@[7]] =~= b@.subrange(4, 8));
        }
        let duration_ms = u64_from_le(b, 8);
        let packet_size = u64_from_le(b, 16);
        proof {
            let plan_bytes = b@.subrange(8, 24);
            assert(b@.subrange(8, 16) =~= plan_bytes.subrange(0, 8));
            assert(b@.subrange(16, 24) =~= plan_bytes.subrange(8, 16));
        }
        if packet_size > usize::MAX as u64 {
            return None;
        }
        let plan = TestPlan { duration_ms, packet_size: packet_size as usize };
        if mode_tag == 0 {
            Some(Message::Syn(Syn { mode: TransportMode::Send, options: plan }))
        } else if mode_tag == 1 {
            Some(Message::Syn(Syn { mode: TransportMode::Receive, options: plan }))
        } else {
            None
        }
    } else if tag == 1 {
        if b.len() != 28 {
            return None;
        }
        let test_id = u64_from_le(b, 4);
        let duration_ms = u64_from_le(b, 12);
        let packet_size = u64_from_le(b, 20);
        proof {
            let plan_bytes = b@.subrange(12, 28);
            assert(b@.subrange(12, 20) =~= plan_bytes.subrange(0, 8));
            assert(b@.subrange(20, 28) =~= plan_bytes.subrange(8, 16));
        }
        if test_id > usize::MAX as u64 {
            return None;
        }
        if packet_size > usize::MAX as u64 {
            return None;
        }
        let plan = TestPlan { duration_ms, packet_size: packet_size as usize };
        Some(Message::SynAck(SynAck { test_id: test_id as usize, test_plan: plan }))
    } else if tag == 2 {
        if b.len() == 4 {
            Some(Message::Fin)
        } else {
            None
        }
    } else if tag == 3 {
        if b.len() == 4 {
            Some(Message::FinAck)
        } else {
            None
        }
    } else {
        None
    }
}

proof fn lemma_plan_round_trip(plan: TestPlan)
    ensures
        spec_decode_plan(spec_encode_plan(plan)) == Some(plan),
{
    let b = spec_encode_plan(plan);
    assert(b.subrange(0, 8) =~= spec_u64_to_le(plan.duration_ms));
    assert(b.subrange(8, 16) =~= spec_u64_to_le(plan.packet_size as u64));
    crate::bytes::lemma_u64_le_round_trip(plan.duration_ms);
    crate::bytes::lemma_u64_le_round_trip(plan.packet_size as u64);
}

/// Round trip: decoding the encoding of any message, of any of the four
/// tags, yields that same message.
pub proof fn lemma_payload_round_trip(m: Message)
    ensures
        spec_decode_payload(spec_encode_payload(m)) == Some(m),
{
    let b = spec_encode_payload(m);
    crate::bytes::lemma_u32_le_round_trip(0);
    crate::bytes::lemma_u32_le_round_trip(1);
    crate::bytes::lemma_u32_le_round_trip(2);
    crate::bytes::lemma_u32_le_round_trip(3);
    match m {
        Message::Syn(syn) => {
            assert(b.len() == 24);
            assert(b.subrange(0, 4) =~= spec_u32_to_le(0));
            assert(b.subrange(4, 8) =~= spec_u32_to_le(spec_mode_tag(syn.mode)));
            assert(b.subrange(8, 24) =~= spec_encode_plan(syn.options));
            crate::bytes::lemma_u32_le_round_trip(spec_mode_tag(syn.mode));
            lemma_plan_round_trip(syn.options);
        },
        Message::SynAck(ack) => {
            assert(b.len() == 28);
            assert(b.subrange(0, 4) =~= spec_u32_to_le(1));
            assert(b.subrange(4, 12) =~= spec_u64_to_le(ack.test_id as u64));
            assert(b.subrange(12, 28) =~= spec_encode_plan(ack.test_plan));
            crate::bytes::lemma_u64_le_round_trip(ack.test_id as u64);
            lemma_plan_round_trip(ack.test_plan);
        },
        Message::Fin => {
            assert(b.subrange(0, 4) =~= spec_u32_to_le(2));
        },
        Message::FinAck => {
            assert(b.subrange(0, 4) =~= spec_u32_to_le(3));
        },
    }
}


// ---------------------------------------------------------------------------
// Frames and the resynchronizing scanner
// ---------------------------------------------------------------------------

/// The six literal bytes `@PERF@` that open every frame.
pub open spec fn spec_signature() -> Seq<u8> {
    seq![0x40u8, 0x50u8, 0x45u8, 0x52u8, 0x46u8, 0x40u8]
}

fn signature_byte(j: usize) -> (r: u8)
    requires
        j < 6,
    ensures
        r == spec_signature()[j as int],
{
    match j {
        0 => 0x40,
        1 => 0x50,
        2 => 0x45,
        3 => 0x52,
        4 => 0x46,
        _ => 0x40,
    }
}

/// One whole frame: signature, big-endian payload length, payload.
pub open spec fn spec_frame(m: Message) -> Seq<u8> {
    spec_signature() + spec_u32_to_be(spec_encode_payload(m).len() as u32) + spec_encode_payload(m)
}

pub proof fn lemma_payload_len(m: Message)
    ensures
        4 <= spec_encode_payload(m).len() <= 28,
{
}

/// Serializes a message into one whole frame.
pub fn encode_frame(message: &Message) -> (r: Vec<u8>)
    ensures
        r@ == spec_frame(*message),
{
    proof {
        lemma_payload_len(*message);
    }
    let payload = encode_payload(message);
    let mut r: Vec<u8> = Vec::new();
    r.push(0x40);
    r.push(0x50);
    r.push(0x45);
    r.push(0x52);
    r.push(0x46);
    r.push(0x40);
    proof {
        assert(r@ =~= spec_signature());
    }
    let length = u32_to_be(payload.len() as u32);
    append_bytes(&mut r, &length);
    append_bytes(&mut r, &payload);
    proof {
        assert(r@ =~= spec_frame(*message));
    }
    r
}

/// The byte-by-byte signature automaton: `j` signature bytes have
/// matched so far; the result is the suffix right after the first
/// completed signature, if one completes. On a mismatch the scan
/// restarts comparing from the first signature byte at the next
/// position.
pub open spec fn spec_find_signature(b: Seq<u8>, j: int) -> Option<Seq<u8>>
    recommends
        0 <= j <= 6,
    decreases b.len(),
{
    if j == 6 {
        Some(b)
    } else if b.len() == 0 {
        None
    } else {
        spec_find_signature(
            b.drop_first(),
            if b.first() == spec_signature()[j] {
                j + 1
            } else {
                0
            },
        )
    }
}

pub proof fn lemma_find_signature_len(b: Seq<u8>, j: int)
    requires
        0 <= j <= 6,
    ensures
        spec_find_signature(b, j) matches Some(t) ==> t.len() + (6 - j) <= b.len(),
    decreases b.len(),
{
    if j == 6 {
    } else if b.len() == 0 {
    } else {
        let jn = if b.first() == spec_signature()[j] {
            j + 1
        } else {
            0
        };
        lemma_find_signature_len(b.drop_first(), jn);
    }
}

/// The next message in `b` and the suffix after its frame: find a
/// signature, read the length, read the payload; a payload that does not
/// decode is discarded and the scan resumes after it. `None` when the
/// bytes run out first.
pub open spec fn spec_scan_message(b: Seq<u8>) -> Option<(Message, Seq<u8>)>
    decreases b.len(),
    via spec_scan_message_decreases
{
    match spec_find_signature(b, 0) {
        None => None,
        Some(t) => {
            if t.len() < 4 {
                None
            } else {
                let n = spec_u32_from_be(t.subrange(0, 4)) as int;
                if 4 + n > t.len() {
                    None
                } else {
                    match spec_decode_payload(t.subrange(4, 4 + n)) {
                        Some(m) => Some((m, t.skip(4 + n))),
                        None => spec_scan_message(t.skip(4 + n)),
                    }
                }
            }
        },
    }
}

#[via_fn]
proof fn spec_scan_message_decreases(b: Seq<u8>) {
    lemma_find_signature_len(b, 0);
}

pub proof fn lemma_scan_message_len(b: Seq<u8>)
    ensures
        spec_scan_message(b) matches Some((m, rest)) ==> rest.len() < b.len(),
    decreases b.len(),
{
    lemma_find_signature_len(b, 0);
    match spec_find_signature(b, 0) {
        None => {},
        Some(t) => {
            if t.len() >= 4 {
                let n = spec_u32_from_be(t.subrange(0, 4)) as int;
                if 4 + n <= t.len() {
                    if spec_decode_payload(t.subrange(4, 4 + n)) is None {
                        lemma_scan_message_len(t.skip(4 + n));
                    }
                }
            }
        },
    }
}

/// Every message the scanner recovers from `b`, in order.
pub open spec fn spec_stream_messages(b: Seq<u8>) -> Seq<Message>
    decreases b.len(),
    via spec_stream_messages_decreases
{
    match spec_scan_message(b) {
        None => Seq::empty(),
        Some((m, rest)) => seq![m] + spec_stream_messages(rest),
    }
}

#[via_fn]
proof fn spec_stream_messages_decreases(b: Seq<u8>) {
    lemma_scan_message_len(b);
}

fn copy_range(b: &Vec<u8>, from: usize, to: usize) -> (r: Vec<u8>)
    requires
        from <= to <= b@.len(),
    ensures
        r@ == b@.subrange(from as int, to as int),
{
    let mut r: Vec<u8> = Vec::new();
    let mut i: usize = from;
    while i < to
        invariant
            from <= i <= to <= b@.len(),
            r@ == b@.subrange(from as int, i as int),
        decreases to - i,
    {
        r.push(b[i]);
        i = i + 1;
        proof {
            assert(r@ =~= b@.subrange(from as int, i as int));
        }
    }
    r
}

/// Scans `buf` for the first complete, well-formed frame; returns its
/// message and how many bytes the scan consumed. `None` means no
/// complete frame is in `buf` yet and more bytes are needed.
pub fn scan_buffer(buf: &Vec<u8>) -> (r: Option<(Message, usize)>)
    ensures
        match r {
            Some(p) => 0 < p.1 <= buf@.len() && spec_scan_message(buf@) == Some(
                (p.0, buf@.skip(p.1 as int)),
            ),
            None => spec_scan_message(buf@) is None,
        },
{
    let ghost whole = buf@;
    let mut pos: usize = 0;
    proof {
        assert(whole.skip(0) =~= whole);
    }
    loop
        invariant
            pos <= buf@.len(),
            buf@ == whole,
            spec_scan_message(whole) == spec_scan_message(whole.skip(pos as int)),
        decreases buf@.len() - pos,
    {
        // Run the signature automaton from `pos`.
        let mut i: usize = pos;
        let mut j: usize = 0;
        while j < 6
            invariant
                pos <= i <= buf@.len(),
                j <= 6,
                buf@ == whole,
                spec_scan_message(whole) == spec_scan_message(whole.skip(pos as int)),
                spec_find_signature(whole.skip(pos as int), 0) == spec_find_signature(
                    whole.skip(i as int),
                    j as int,
                ),
            decreases buf@.len() - i, 6 - j,
        {
            if i == buf.len() {
                // Out of bytes with the signature incomplete.
                proof {
                    assert(whole.skip(i as int).len() == 0);
                    assert(spec_find_signature(whole.skip(i as int), j as int) is None);
                    assert(spec_scan_message(whole.skip(pos as int)) is None);
                }
                return None;
            }
            let b = buf[i];
            proof {
                assert(whole.skip(i as int).first() == whole[i as int]);
                assert(whole.skip(i as int).drop_first() =~= whole.skip(i as int + 1));
            }
            if b == signature_byte(j) {
                j = j + 1;
            } else {
                j = 0;
            }
            i = i + 1;
        }
        // Signature complete: the suffix after it starts at `i`.
        let ghost t = whole.skip(i as int);
        proof {
            assert(spec_find_signature(whole.skip(pos as int), 0) == Some(t));
        }
        if buf.len() - i < 4 {
            return None;
        }
        let n32 = u32_from_be(buf[i], buf[i + 1], buf[i + 2], buf[i + 3]);
        proof {
            assert(seq![whole[i as int], whole[i as int + 1], whole[i as int + 2], whole[i as int
                + 3]] =~= t.subrange(0, 4));
        }
        if (n32 as u64) > (buf.len() - i - 4) as u64 {
            return None;
        }
        let n = n32 as usize;
        let payload = copy_range(buf, i + 4, i + 4 + n);
        proof {
            assert(payload@ =~= t.subrange(4, 4 + n as int));
        }
        match decode_payload(&payload) {
            Some(m) => {
                let k = i + 4 + n;
                proof {
                    assert(t.skip(4 + n as int) =~= whole.skip(k as int));
                }
                return Some((m, k));
            },
            None => {
                let next = i + 4 + n;
                proof {
                    assert(t.skip(4 + n as int) =~= whole.skip(next as int));
                    assert(spec_scan_message(whole.skip(pos as int)) == spec_scan_message(
                        whole.skip(next as int),
                    ));
                }
                pos = next;
            },
        }
    }
}

/// Runs the scanner over a whole byte sequence, yielding every message
/// it recovers, in order.
pub fn decode_stream(bytes: &Vec<u8>) -> (r: Vec<Message>)
    ensures
        r@ == spec_stream_messages(bytes@),
{
    let mut rest = copy_range(bytes, 0, bytes.len());
    proof {
        assert(rest@ =~= bytes@);
    }
    let mut out: Vec<Message> = Vec::new();
    loop
        invariant
            spec_stream_messages(bytes@) == out@ + spec_stream_messages(rest@),
        decreases rest@.len(),
    {
        match scan_buffer(&rest) {
            Some((m, k)) => {
                out.push(m);
                let next = tail_from(&rest, k);
                proof {
                    assert(out@ + spec_stream_messages(next@) =~= spec_stream_messages(bytes@));
                }
                rest = next;
            },
            None => {
                proof {
                    assert(out@ + spec_stream_messages(rest@) =~= out@);
                    assert(out@ =~= spec_stream_messages(bytes@));
                }
                return out;
            },
        }
    }
}


// ---------------------------------------------------------------------------
// Recovery from interleaved corruption
// ---------------------------------------------------------------------------

/// One frame-shaped unit on the wire: the signature, a length field that
/// matches the rest, and a payload that may or may not decode.
pub open spec fn spec_is_frame_unit(u: Seq<u8>) -> bool {
    &&& u.len() >= 10
    &&& u.subrange(0, 6) == spec_signature()
    &&& spec_u32_from_be(u.subrange(6, 10)) as int == u.len() - 10
}

/// The message a frame-shaped unit carries, if its payload decodes.
pub open spec fn spec_unit_message(u: Seq<u8>) -> Option<Message> {
    spec_decode_payload(u.skip(10))
}

pub open spec fn spec_concat_units(units: Seq<Seq<u8>>) -> Seq<u8>
    decreases units.len(),
{
    if units.len() == 0 {
        Seq::empty()
    } else {
        units.first() + spec_concat_units(units.drop_first())
    }
}

/// The well-formed messages among a sequence of frame-shaped units, in
/// order, skipping the corrupted ones.
pub open spec fn spec_good_messages(units: Seq<Seq<u8>>) -> Seq<Message>
    decreases units.len(),
{
    if units.len() == 0 {
        Seq::empty()
    } else {
        match spec_unit_message(units.first()) {
            Some(m) => seq![m] + spec_good_messages(units.drop_first()),
            None => spec_good_messages(units.drop_first()),
        }
    }
}

proof fn lemma_find_signature_at_start(b: Seq<u8>)
    requires
        b.len() >= 6,
        b.subrange(0, 6) == spec_signature(),
    ensures
        spec_find_signature(b, 0) == Some(b.skip(6)),
{
    let s = spec_signature();
    assert(b[0] == s[0] && b[1] == s[1] && b[2] == s[2] && b[3] == s[3] && b[4] == s[4] && b[5]
        == s[5]) by {
        assert(forall|q: int| 0 <= q < 6 ==> b.subrange(0, 6)[q] == b[q]);
    }
    assert(b.drop_first() =~= b.skip(1));
    assert(b.skip(1).drop_first() =~= b.skip(2));
    assert(b.skip(2).drop_first() =~= b.skip(3));
    assert(b.skip(3).drop_first() =~= b.skip(4));
    assert(b.skip(4).drop_first() =~= b.skip(5));
    assert(b.skip(5).drop_first() =~= b.skip(6));
    assert(b.skip(1).first() == b[1]);
    assert(b.skip(2).first() == b[2]);
    assert(b.skip(3).first() == b[3]);
    assert(b.skip(4).first() == b[4]);
    assert(b.skip(5).first() == b[5]);
    assert(spec_find_signature(b, 0) == spec_find_signature(b.skip(1), 1));
    assert(spec_find_signature(b.skip(1), 1) == spec_find_signature(b.skip(2), 2));
    assert(spec_find_signature(b.skip(2), 2) == spec_find_signature(b.skip(3), 3));
    assert(spec_find_signature(b.skip(3), 3) == spec_find_signature(b.skip(4), 4));
    assert(spec_find_signature(b.skip(4), 4) == spec_find_signature(b.skip(5), 5));
    assert(spec_find_signature(b.skip(5), 5) == spec_find_signature(b.skip(6), 6));
}

proof fn lemma_scan_frame_unit(u: Seq<u8>, rest: Seq<u8>)
    requires
        spec_is_frame_unit(u),
    ensures
        (spec_unit_message(u) matches Some(m) ==> spec_scan_message(u + rest) == Some((m, rest))),
        (spec_unit_message(u) is None ==> spec_scan_message(u + rest) == spec_scan_message(rest)),
{
    let b = u + rest;
    assert(b.subrange(0, 6) =~= u.subrange(0, 6));
    lemma_find_signature_at_start(b);
    let t = b.skip(6);
    assert(t.subrange(0, 4) =~= u.subrange(6, 10));
    let n = spec_u32_from_be(t.subrange(0, 4)) as int;
    assert(n == u.len() - 10);
    assert(t.len() == b.len() - 6 >= 4 + n);
    assert(t.subrange(4, 4 + n) =~= u.skip(10));
    assert(t.skip(4 + n) =~= rest);
    match spec_unit_message(u) {
        Some(m) => {
            assert(spec_scan_message(b) == Some((m, t.skip(4 + n))));
        },
        None => {
            assert(spec_scan_message(b) == spec_scan_message(t.skip(4 + n)));
        },
    }
}


/// Recovery: the scanner yields exactly the well-formed messages among
/// frame-shaped units, in order, discarding the corrupted frames.
pub proof fn lemma_stream_recovers_frames(units: Seq<Seq<u8>>)
    requires
        forall|t: int| #![trigger units[t]] 0 <= t < units.len() ==> spec_is_frame_unit(units[t]),
    ensures
        spec_stream_messages(spec_concat_units(units)) == spec_good_messages(units),
    decreases units.len(),
{
    if units.len() == 0 {
        assert(spec_find_signature(Seq::<u8>::empty(), 0) is None);
        assert(spec_stream_messages(spec_concat_units(units)) =~= spec_good_messages(units));
    } else {
        let u = units.first();
        let tail = units.drop_first();
        assert(u == units[0]);
        assert(forall|t: int| 0 <= t < tail.len() ==> tail[t] == units[t + 1]);
        lemma_stream_recovers_frames(tail);
        let rest = spec_concat_units(tail);
        lemma_scan_frame_unit(u, rest);
        match spec_unit_message(u) {
            Some(m) => {
                assert(spec_stream_messages(u + rest) == seq![m] + spec_stream_messages(rest));
                assert(seq![m] + spec_good_messages(tail) =~= spec_good_messages(units));
            },
            None => {
                assert(spec_stream_messages(u + rest) == spec_stream_messages(rest));
            },
        }
    }
}


/// Frame round trip: running the scanner over one whole encoded frame
/// yields exactly the message it carries.
pub proof fn lemma_frame_round_trip(m: Message)
    ensures
        spec_stream_messages(spec_frame(m)) == seq![m],
{
    let payload = spec_encode_payload(m);
    lemma_payload_len(m);
    let u = spec_frame(m);
    assert(u.subrange(0, 6) =~= spec_signature());
    assert(u.subrange(6, 10) =~= spec_u32_to_be(payload.len() as u32));
    crate::bytes::lemma_u32_be_round_trip(payload.len() as u32);
    assert(spec_is_frame_unit(u));
    assert(u.skip(10) =~= payload);
    lemma_payload_round_trip(m);
    assert(spec_unit_message(u) == Some(m));
    lemma_scan_frame_unit(u, Seq::empty());
    assert(u + Seq::<u8>::empty() =~= u);
    assert(spec_scan_message(u) == Some((m, Seq::<u8>::empty())));
    assert(spec_find_signature(Seq::<u8>::empty(), 0) is None);
    assert(spec_stream_messages(Seq::<u8>::empty()) =~= Seq::<Message>::empty());
    assert(spec_stream_messages(u) =~= seq![m]);
}

// ---------------------------------------------------------------------------
// The reader and writer over a connection
// ---------------------------------------------------------------------------

/// How many bytes one fetch from the connection asks for.
const READ_CHUNK: usize = 4096;

/// Every retry loop carries this budget, spending one unit per
/// iteration, so each loop provably terminates; at any realistic rate
/// the budget outlives the machine, so the loops are blocking in
/// practice. Waiting on a silent peer blocks inside the connection's
/// own read and spends nothing.
const RETRY_BUDGET: u64 = 0xffff_ffff_ffff_ffff;

/// Turns a byte-oriented connection into a sequence of typed messages.
/// Its view is the bytes fetched from the connection but not yet
/// consumed by a returned message.
pub struct MessageReader<C: Connection> {
    connection: C,
    buffer: Vec<u8>,
}

impl<C: Connection> View for MessageReader<C> {
    type V = Seq<u8>;

    closed spec fn view(&self) -> Seq<u8> {
        self.buffer@
    }
}

impl<C: Connection> MessageReader<C> {
    pub fn new(connection: C) -> (r: MessageReader<C>)
        ensures
            r@ == Seq::<u8>::empty(),
    {
        MessageReader { connection, buffer: Vec::new() }
    }

    /// Blocks until the scanner recovers one message: every returned
    /// message is the first well-formed frame of the bytes that had
    /// arrived, and everything up to the end of its frame is consumed.
    /// Only the timeout-bounded read produces `ReadTimeout`.
    pub fn read(&mut self) -> (r: Result<Message, Error>)
        ensures
            (r matches Ok(m) ==> exists|arrived: Seq<u8>|
                spec_scan_message(old(self)@ + arrived) == Some((m, final(self)@))),
            (r matches Err(e) ==> e is Io),
    {
        let ghost mut arrived: Seq<u8> = Seq::empty();
        proof {
            assert(self.buffer@ =~= old(self)@ + arrived);
        }
        let mut budget: u64 = RETRY_BUDGET;
        loop
            invariant
                self.buffer@ == old(self)@ + arrived,
            decreases budget,
        {
            if budget == 0 {
                return Err(Error::Io { error: IoError::of_kind(IoErrorKind::Other) });
            }
            budget = budget - 1;
            match scan_buffer(&self.buffer) {
                Some((m, k)) => {
                    let rest = tail_from(&self.buffer, k);
                    self.buffer = rest;
                    return Ok(m);
                },
                None => {
                    let chunk = match self.connection.read(READ_CHUNK) {
                        Ok(c) => c,
                        Err(e) => {
                            return Err(Error::Io { error: e });
                        },
                    };
                    if chunk.len() == 0 {
                        return Err(
                            Error::Io { error: IoError::of_kind(IoErrorKind::UnexpectedEof) },
                        );
                    }
                    append_bytes(&mut self.buffer, &chunk);
                    proof {
                        arrived = arrived + chunk@;
                        assert(self.buffer@ =~= old(self)@ + arrived);
                    }
                },
            }
        }
    }

    /// Reads messages until `f` accepts one, discarding the others; never
    /// returns a value that `f` did not produce from a message. Only the
    /// timeout-bounded read produces `ReadTimeout`.
    pub fn read_until<T, F: Fn(Message) -> Option<T>>(&mut self, f: F) -> (r: Result<T, Error>)
        requires
            forall|m: Message| call_requires(f, (m,)),
        ensures
            (r matches Ok(v) ==> exists|m: Message| call_ensures(f, (m,), Some(v))),
            (r matches Err(e) ==> e is Io),
    {
        let mut budget: u64 = RETRY_BUDGET;
        loop
            invariant
                forall|m: Message| call_requires(f, (m,)),
            decreases budget,
        {
            if budget == 0 {
                return Err(Error::Io { error: IoError::of_kind(IoErrorKind::Other) });
            }
            budget = budget - 1;
            let message = match self.read() {
                Ok(m) => m,
                Err(e) => {
                    return Err(e);
                },
            };
            let outcome = f(message);
            if let Some(value) = outcome {
                proof {
                    assert(call_ensures(f, (message,), Some(value)));
                    let rr: Result<T, Error> = Ok(value);
                    assert(Some(rr->Ok_0) == Some(value));
                    assert(exists|m: Message| call_ensures(f, (m,), Some(rr->Ok_0)));
                }
                return Ok(value);
            }
        }
    }

    /// `read_until`, bounded: arms the connection's receive timeout,
    /// converts a would-block failure into the distinguished
    /// `ReadTimeout` error, and unconditionally clears the timeout before
    /// returning, on success and on failure alike.
    pub fn read_until_timeout<T, F: Fn(Message) -> Option<T>>(
        &mut self,
        f: F,
        milliseconds: u64,
    ) -> (r: Result<T, Error>)
        requires
            forall|m: Message| call_requires(f, (m,)),
        ensures
            (r matches Ok(v) ==> exists|m: Message| call_ensures(f, (m,), Some(v))),
    {
        if let Err(e) = self.connection.set_read_timeout(Some(milliseconds)) {
            return Err(Error::Io { error: e });
        }
        let result: Result<T, Error> = self.read_until_or_timeout(f);
        let cleared = self.connection.set_read_timeout(None);
        match result {
            Ok(value) => match cleared {
                Ok(_) => Ok(value),
                Err(e) => Err(Error::Io { error: e }),
            },
            Err(e) => Err(e),
        }
    }

    /// The loop of `read_until_timeout`: reads until `f` accepts a
    /// message, turning a would-block failure into `ReadTimeout`.
    fn read_until_or_timeout<T, F: Fn(Message) -> Option<T>>(&mut self, f: F) -> (r: Result<
        T,
        Error,
    >)
        requires
            forall|m: Message| call_requires(f, (m,)),
        ensures
            (r matches Ok(v) ==> exists|m: Message| call_ensures(f, (m,), Some(v))),
    {
        let mut budget: u64 = RETRY_BUDGET;
        loop
            invariant
                forall|m: Message| call_requires(f, (m,)),
            decreases budget,
        {
            if budget == 0 {
                return Err(Error::Io { error: IoError::of_kind(IoErrorKind::Other) });
            }
            budget = budget - 1;
            match self.read() {
                Ok(message) => {
                    let outcome = f(message);
                    if let Some(value) = outcome {
                        proof {
                            assert(call_ensures(f, (message,), Some(value)));
                            let rr: Result<T, Error> = Ok(value);
                            assert(Some(rr->Ok_0) == Some(value));
                            assert(exists|m: Message| call_ensures(f, (m,), Some(rr->Ok_0)));
                        }
                        return Ok(value);
                    }
                },
                Err(e) => {
                    match e {
                        Error::Io { error } => {
                            if error.kind == IoErrorKind::WouldBlock {
                                return Err(Error::ReadTimeout);
                            } else {
                                return Err(Error::Io { error });
                            }
                        },
                        other => {
                            return Err(other);
                        },
                    }
                },
            }
        }
    }
}

/// Writes messages as frames over a connection. The bytes handed to the
/// connection for a message are exactly `spec_frame` of it, in order,
/// retrying partial writes until the whole frame is accepted.
pub struct MessageWriter<C: Connection> {
    connection: C,
}

impl<C: Connection> MessageWriter<C> {
    pub fn new(writer: C) -> (r: MessageWriter<C>) {
        MessageWriter { connection: writer }
    }

    /// Serializes the message and writes signature, big-endian length and
    /// payload as one frame; the bytes handed to the connection are
    /// exactly `spec_frame` of the message, in order. Only the
    /// timeout-bounded read produces `ReadTimeout`.
    pub fn write(&mut self, message: Message) -> (r: Result<(), Error>)
        ensures
            (r matches Err(e) ==> e is Io),
    {
        let frame = encode_frame(&message);
        let mut remaining = frame;
        loop
            invariant
                true,
            decreases remaining@.len(),
        {
            if remaining.len() == 0 {
                return Ok(());
            }
            let n = match self.connection.write(&remaining) {
                Ok(n) => n,
                Err(e) => {
                    return Err(Error::Io { error: e });
                },
            };
            if n == 0 {
                return Err(Error::Io { error: IoError::of_kind(IoErrorKind::Other) });
            }
            let k = if n < remaining.len() {
                n
            } else {
                remaining.len()
            };
            remaining = tail_from(&remaining, k);
        }
    }
}

} // verus!
