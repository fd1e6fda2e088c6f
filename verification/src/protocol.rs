//! The wire envelope, Lamport ordering, and length-prefixed framing.

use vstd::prelude::*;

use crate::ids::PeerId;

verus! {

/// Independent protocol version for wire compatibility checks.
pub const PROTOCOL_VERSION: u8 = 1;

/// Upper bound for one framed control message, in bytes.
pub const MAX_FRAME_BYTES: usize = 1_048_576;

/// Acknowledgement kinds permitted by the receipt policy.
#[derive(Clone, Copy, Debug, PartialEq, Eq, Structural)]
pub enum AckKind {
    Delivered,
    Read,
}

/// Lamport ordering metadata attached to every replicated message mutation.
#[derive(Clone, Copy, Debug, PartialEq, Eq, Structural)]
pub struct LamportClock {
    pub counter: i64,
    pub peer_id: PeerId,
}

/// The deterministic last-writer-wins order: a higher counter wins, and equal
/// counters are ordered by the peer identity's UUID value (the order of its bytes).
pub open spec fn clock_newer(a: LamportClock, b: LamportClock) -> bool {
    a.counter > b.counter || (a.counter == b.counter && a.peer_id.spec_value() > b.peer_id.spec_value())
}

/// The clock that survives when `incoming` meets the current clock `current`.
pub open spec fn lww_winner(current: LamportClock, incoming: LamportClock) -> LamportClock {
    if clock_newer(incoming, current) { incoming } else { current }
}

impl LamportClock {
    /// Returns whether this clock wins the deterministic LWW comparison.
    pub fn is_newer_than(self, other: Self) -> (newer: bool)
        ensures
            newer == clock_newer(self, other),
    {
        self.counter > other.counter || (self.counter == other.counter && self.peer_id.as_u128() > other.peer_id.as_u128())
    }
}

/// Law: no clock is newer than itself.
pub proof fn lemma_clock_irreflexive(a: LamportClock)
    ensures
        !clock_newer(a, a),
{
}

/// Law: of two clocks, at most one is newer than the other.
pub proof fn lemma_clock_asymmetric(a: LamportClock, b: LamportClock)
    ensures
        !(clock_newer(a, b) && clock_newer(b, a)),
{
}

/// Law: the LWW order is transitive.
pub proof fn lemma_clock_transitive(a: LamportClock, b: LamportClock, c: LamportClock)
    requires
        clock_newer(a, b),
        clock_newer(b, c),
    ensures
        clock_newer(a, c),
{
}

/// Law: any two different clocks are ordered one way or the other.
pub proof fn lemma_clock_total(a: LamportClock, b: LamportClock)
    requires
        a != b,
    ensures
        clock_newer(a, b) || clock_newer(b, a),
{
    if a.counter == b.counter && a.peer_id.spec_value() == b.peer_id.spec_value() {
        PeerId::lemma_value_determines(a.peer_id, b.peer_id);
    }
}

/// Law: replicas that see the same two mutations in either order keep the same winner.
pub proof fn lemma_lww_order_independent(start: LamportClock, x: LamportClock, y: LamportClock)
    ensures
        lww_winner(lww_winner(start, x), y) == lww_winner(lww_winner(start, y), x),
{
    if x != y {
        lemma_clock_total(x, y);
    }
    if start != x {
        lemma_clock_total(start, x);
    }
    if start != y {
        lemma_clock_total(start, y);
    }
}

/// Law: a mutation delivered twice has no further effect.
pub proof fn lemma_lww_idempotent(start: LamportClock, x: LamportClock)
    ensures
        lww_winner(lww_winner(start, x), x) == lww_winner(start, x),
{
}

/// Message content carried by the wire envelope.
#[derive(Clone, Debug, PartialEq, Eq)]
pub enum MessageBody {
    Text(String),
    Edit { message_id: u128, body: String },
    Delete { message_id: u128 },
    Reaction { message_id: u128, emoji: String, removed: bool },
}

/// A hostless replicated chat message or message mutation.
#[derive(Clone, Debug, PartialEq, Eq)]
pub struct MessagePayload {
    pub author: PeerId,
    pub body: MessageBody,
    pub clock: LamportClock,
    pub created_at: i64,
    pub id: u128,
    pub mentions: Vec<PeerId>,
    pub reply_to: Option<u128>,
    pub room: String,
}

/// The versioned control and chat envelope exchanged by LAN peers.
#[derive(Clone, Debug, PartialEq, Eq)]
pub enum Envelope {
    Handshake { peer_id: PeerId, username: String },
    Heartbeat,
    Message(MessagePayload),
    SyncRequest { room: String, since: LamportClock },
    Ack { message_id: u128, kind: AckKind },
}

/// Protocol framing and serialization failures.
#[derive(Clone, Copy, Debug, PartialEq, Eq, Structural)]
pub enum FrameError {
    UnsupportedVersion { received: u8 },
    FrameTooLarge { received: usize, maximum: usize },
    Serialization,
    Io,
}

/// The four little-endian bytes of a 32-bit length.
pub open spec fn le_u32_bytes(n: nat) -> Seq<u8> {
    seq![
        (n % 256) as u8,
        ((n / 256) % 256) as u8,
        ((n / 65536) % 256) as u8,
        ((n / 16777216) % 256) as u8,
    ]
}

/// The value of four little-endian bytes.
pub open spec fn le_u32_value(b: Seq<u8>) -> nat {
    (b[0] + 256 * b[1] + 65536 * b[2] + 16777216 * b[3]) as nat
}

/// One frame: the body length as a little-endian `u32`, the protocol version
/// byte, then the body.
pub open spec fn frame_bytes(body: Seq<u8>) -> Seq<u8> {
    le_u32_bytes(body.len()) + seq![PROTOCOL_VERSION] + body
}

/// What a reader makes of a frame's length prefix: the body length, or an
/// error when it exceeds the limit.
pub open spec fn frame_length_outcome(prefix: Seq<u8>) -> Result<usize, FrameError> {
    let length = le_u32_value(prefix);
    if length > MAX_FRAME_BYTES {
        Err(FrameError::FrameTooLarge { received: length as usize, maximum: MAX_FRAME_BYTES })
    } else {
        Ok(length as usize)
    }
}

/// Law: the little-endian encoding of a 32-bit length reads back as that length.
pub proof fn lemma_le_u32_roundtrip(n: nat)
    requires
        n <= u32::MAX,
    ensures
        le_u32_value(le_u32_bytes(n)) == n,
{
    let x: u32 = n as u32;
    assert(x == (x % 256) + 256 * ((x / 256) % 256) + 65536 * ((x / 65536) % 256) + 16777216 * ((x / 16777216) % 256)) by (bit_vector);
}

/// Law: a reader of a written frame finds the body's length, the supported
/// version, and then exactly the body.
pub proof fn lemma_frame_roundtrip(body: Seq<u8>)
    requires
        body.len() <= MAX_FRAME_BYTES,
    ensures
        frame_bytes(body).len() == body.len() + 5,
        frame_length_outcome(frame_bytes(body).subrange(0, 4)) == Ok::<usize, FrameError>(body.len() as usize),
        frame_bytes(body)[4] == PROTOCOL_VERSION,
        frame_bytes(body).subrange(5, body.len() as int + 5) == body,
{
    lemma_le_u32_roundtrip(body.len());
    assert(frame_bytes(body).subrange(0, 4) =~= le_u32_bytes(body.len()));
    assert(frame_bytes(body).subrange(5, body.len() as int + 5) =~= body);
}

/// Frames one serialized envelope body: a little-endian `u32` length, the
/// protocol version, and the body. Bodies over the limit are refused.
pub fn encode_frame(body: &[u8]) -> (frame: Result<Vec<u8>, FrameError>)
    ensures
        body@.len() > MAX_FRAME_BYTES ==> frame == Err::<Vec<u8>, FrameError>(FrameError::FrameTooLarge {
            received: body@.len() as usize,
            maximum: MAX_FRAME_BYTES,
        }),
        body@.len() <= MAX_FRAME_BYTES ==> (frame matches Ok(bytes) && bytes@ == frame_bytes(body@)),
{
    let length = body.len();
    if length > MAX_FRAME_BYTES {
        return Err(FrameError::FrameTooLarge { received: length, maximum: MAX_FRAME_BYTES });
    }
    let mut frame: Vec<u8> = Vec::new();
    frame.push((length % 256) as u8);
    frame.push(((length / 256) % 256) as u8);
    frame.push(((length / 65536) % 256) as u8);
    frame.push(((length / 16777216) % 256) as u8);
    frame.push(PROTOCOL_VERSION);
    let mut i: usize = 0;
    while i < length
        invariant
            length == body@.len(),
            i <= length,
            frame@ == le_u32_bytes(length as nat) + seq![PROTOCOL_VERSION] + body@.subrange(0, i as int),
        decreases length - i,
    {
        frame.push(body[i]);
        assert(body@.subrange(0, i + 1) =~= body@.subrange(0, i as int).push(body@[i as int]));
        i = i + 1;
    }
    assert(body@.subrange(0, length as int) =~= body@);
    Ok(frame)
}

/// Reads a frame's little-endian length prefix, refusing lengths over the limit.
pub fn frame_body_length(prefix: [u8; 4]) -> (length: Result<usize, FrameError>)
    ensures
        length == frame_length_outcome(prefix@),
{
    let value: u64 = prefix[0] as u64 + 256 * (prefix[1] as u64) + 65536 * (prefix[2] as u64) + 16777216 * (prefix[3] as u64);
    if value > MAX_FRAME_BYTES as u64 {
        Err(FrameError::FrameTooLarge { received: value as usize, maximum: MAX_FRAME_BYTES })
    } else {
        Ok(value as usize)
    }
}

/// Checks the version byte that follows a frame's length prefix.
pub fn check_frame_version(version: u8) -> (result: Result<(), FrameError>)
    ensures
        version == PROTOCOL_VERSION ==> result is Ok,
        version != PROTOCOL_VERSION ==> result == Err::<(), FrameError>(FrameError::UnsupportedVersion { received: version }),
{
    if version != PROTOCOL_VERSION {
        Err(FrameError::UnsupportedVersion { received: version })
    } else {
        Ok(())
    }
}

} // verus!
