use vstd::prelude::*;
use vstd::slice::slice_subrange;
use vstd::string::StringSliceAdditionalSpecFns;

use crate::decode::{base64_standard_decode, decode_standard};
use crate::error::SendError;

verus! {

/// Bytes in front of every payload: the type tag and the 32-bit length.
pub const HEADER_LEN: usize = 5;

/// Largest payload whose byte count fits the 32-bit length field.
pub const MAX_PAYLOAD_LEN: usize = 0xffff_ffff;

/// The two kinds of message that travel on the connection.
#[derive(Clone, Copy, Debug, PartialEq, Eq, Structural)]
pub enum MessageKind {
    /// An encoded video frame, carried as raw bytes.
    Frame,
    /// A settings update, carried as the UTF-8 bytes of its text.
    Settings,
}

impl MessageKind {
    pub open spec fn tag_spec(self) -> u8 {
        match self {
            MessageKind::Frame => 1,
            MessageKind::Settings => 2,
        }
    }

    /// The byte that opens a message of this kind on the wire.
    pub fn tag(&self) -> (r: u8)
        ensures
            r == self.tag_spec(),
    {
        match self {
            MessageKind::Frame => 1,
            MessageKind::Settings => 2,
        }
    }
}

/// The three parts of a message, written in this order.
#[derive(Clone, Copy, Debug, PartialEq, Eq, Structural)]
pub enum Phase {
    Tag,
    Length,
    Payload,
}

/// `n` as four bytes, most significant first.
pub open spec fn be32(n: int) -> Seq<u8> {
    seq![
        (n / 0x100_0000) as u8,
        (n / 0x1_0000 % 0x100) as u8,
        (n / 0x100 % 0x100) as u8,
        (n % 0x100) as u8,
    ]
}

/// The number that four big-endian bytes stand for.
pub open spec fn be32_value(b: Seq<u8>) -> int {
    b[0] * 0x100_0000 + b[1] * 0x1_0000 + b[2] * 0x100 + b[3]
}

/// The envelope of a message: tag, byte count of the payload, payload.
pub open spec fn envelope(kind: MessageKind, payload: Seq<u8>) -> Seq<u8> {
    seq![kind.tag_spec()] + be32(payload.len() as int) + payload
}

pub open spec fn phase_start(p: Phase) -> int {
    match p {
        Phase::Tag => 0,
        Phase::Length => 1,
        Phase::Payload => 5,
    }
}

pub open spec fn phase_end(p: Phase, total: int) -> int {
    match p {
        Phase::Tag => 1,
        Phase::Length => 5,
        Phase::Payload => total,
    }
}

/// The bytes of an encoded message that belong to part `p`.
pub open spec fn part_of(frame: Seq<u8>, p: Phase) -> Seq<u8> {
    frame.subrange(phase_start(p), phase_end(p, frame.len() as int))
}

/// The length field of an envelope reads back as the payload's byte count.
pub proof fn lemma_length_field(kind: MessageKind, payload: Seq<u8>)
    requires
        payload.len() <= MAX_PAYLOAD_LEN,
    ensures
        envelope(kind, payload).len() == HEADER_LEN + payload.len(),
        envelope(kind, payload)[0] == kind.tag_spec(),
        be32_value(envelope(kind, payload).subrange(1, 5)) == payload.len(),
        envelope(kind, payload).subrange(5, envelope(kind, payload).len() as int) == payload,
{
    let n = payload.len() as int;
    let e = envelope(kind, payload);
    let h = e.subrange(1, 5);
    assert(h =~= be32(n));
    assert(e.subrange(5, e.len() as int) =~= payload);
    assert(be32_value(be32(n)) == n) by (nonlinear_arith)
        requires
            0 <= n <= 0xffff_ffff,
            be32(n)[0] == (n / 0x100_0000) as u8,
            be32(n)[1] == (n / 0x1_0000 % 0x100) as u8,
            be32(n)[2] == (n / 0x100 % 0x100) as u8,
            be32(n)[3] == (n % 0x100) as u8,
    {
    }
}

/// The outcome of framing `payload`: its envelope, or `TooLarge` where the
/// byte count does not fit the length field.
pub open spec fn framed(kind: MessageKind, payload: Seq<u8>) -> Result<Seq<u8>, SendError> {
    if payload.len() > MAX_PAYLOAD_LEN {
        Err(SendError::TooLarge)
    } else {
        Ok(envelope(kind, payload))
    }
}

/// The outcome of framing base64 text as a frame message.
pub open spec fn framed_base64(data: Seq<u8>) -> Result<Seq<u8>, SendError> {
    match base64_standard_decode(data) {
        None => Err(SendError::Decode),
        Some(bytes) => framed(MessageKind::Frame, bytes),
    }
}

/// `r` is the executable form of the outcome `expected`.
pub open spec fn same_outcome(r: Result<Vec<u8>, SendError>, expected: Result<Seq<u8>, SendError>) -> bool {
    match expected {
        Ok(bytes) => r is Ok && r->Ok_0@ == bytes,
        Err(e) => r == Err::<Vec<u8>, SendError>(e),
    }
}

/// The three parts of an envelope, in order, make up the whole of it.
pub proof fn lemma_parts_cover(frame: Seq<u8>)
    requires
        frame.len() >= HEADER_LEN,
    ensures
        part_of(frame, Phase::Tag) + part_of(frame, Phase::Length) + part_of(frame, Phase::Payload)
            == frame,
{
    assert(part_of(frame, Phase::Tag) + part_of(frame, Phase::Length) + part_of(
        frame,
        Phase::Payload,
    ) =~= frame);
}

/// Encodes a message: type tag, big-endian byte count, payload.
pub fn encode_message(kind: MessageKind, payload: &[u8]) -> (r: Vec<u8>)
    requires
        payload@.len() <= MAX_PAYLOAD_LEN,
    ensures
        r@ == envelope(kind, payload@),
{
    let n: u32 = payload.len() as u32;
    let mut r: Vec<u8> = Vec::new();
    r.push(kind.tag());
    r.push((n / 0x100_0000) as u8);
    r.push((n / 0x1_0000 % 0x100) as u8);
    r.push((n / 0x100 % 0x100) as u8);
    r.push((n % 0x100) as u8);
    assert(r@ =~= seq![kind.tag_spec()] + be32(payload@.len() as int));
    let mut i: usize = 0;
    while i < payload.len()
        invariant
            i <= payload@.len(),
            r@ == seq![kind.tag_spec()] + be32(payload@.len() as int) + payload@.subrange(0, i as int),
        decreases payload@.len() - i,
    {
        r.push(payload[i]);
        i = i + 1;
        assert(r@ =~= seq![kind.tag_spec()] + be32(payload@.len() as int) + payload@.subrange(
            0,
            i as int,
        ));
    }
    assert(payload@.subrange(0, i as int) =~= payload@);
    r
}

/// Encodes a message, or refuses a payload too long for the length field.
pub fn frame_message(kind: MessageKind, payload: &[u8]) -> (r: Result<Vec<u8>, SendError>)
    ensures
        same_outcome(r, framed(kind, payload@)),
{
    if payload.len() > MAX_PAYLOAD_LEN {
        Err(SendError::TooLarge)
    } else {
        Ok(encode_message(kind, payload))
    }
}

/// Encodes a frame message from its standard base64 text. Invalid base64
/// is refused before anything is encoded.
pub fn prepare_frame(data: &str) -> (r: Result<Vec<u8>, SendError>)
    ensures
        same_outcome(r, framed_base64(data.spec_bytes())),
{
    match decode_standard(data.as_bytes()) {
        Ok(bytes) => frame_message(MessageKind::Frame, bytes.as_slice()),
        Err(_) => Err(SendError::Decode),
    }
}

/// Encodes a settings message: the payload is the UTF-8 bytes of `text`,
/// and the length field counts those bytes, not characters.
pub fn prepare_settings(text: &str) -> (r: Result<Vec<u8>, SendError>)
    ensures
        same_outcome(r, framed(MessageKind::Settings, text.spec_bytes())),
{
    frame_message(MessageKind::Settings, text.as_bytes())
}

/// The bytes of an encoded message that part `p` writes.
pub fn frame_part(frame: &[u8], p: Phase) -> (r: &[u8])
    requires
        frame@.len() >= HEADER_LEN,
    ensures
        r@ == part_of(frame@, p),
{
    match p {
        Phase::Tag => slice_subrange(frame, 0, 1),
        Phase::Length => slice_subrange(frame, 1, HEADER_LEN),
        Phase::Payload => slice_subrange(frame, HEADER_LEN, frame.len()),
    }
}

} // verus!
