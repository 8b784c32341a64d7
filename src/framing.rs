//! Length-prefixed framing of the wire protocol: every message is its payload
//! length as a little-endian `u64`, immediately followed by the payload.
use vstd::bytes::{
    lemma_auto_spec_u64_to_from_le_bytes, spec_u64_from_le_bytes, spec_u64_to_le_bytes,
    u64_from_le_bytes, u64_to_le_bytes,
};
use vstd::prelude::*;

verus! {

/// Number of bytes of the length prefix.
pub const FRAME_HEADER_LEN: usize = 8;

/// Why a frame could not be read from a stream.
#[derive(Debug, Clone, Copy, PartialEq, Eq, Structural)]
pub enum FrameError {
    /// The stream ended in the middle of the payload.
    TruncatedPayload,
}

/// The bytes written on the wire for one payload.
pub open spec fn frame_of(payload: Seq<u8>) -> Seq<u8> {
    spec_u64_to_le_bytes(payload.len() as u64) + payload
}

/// The payload length announced by the first eight bytes of a stream.
pub open spec fn announced_len(stream: Seq<u8>) -> nat {
    spec_u64_from_le_bytes(stream.subrange(0, 8)) as nat
}

/// What reading one message from the start of a stream yields: no message
/// when the stream ends within the length prefix, an error when it ends
/// within the payload, and the payload otherwise.
pub open spec fn received(stream: Seq<u8>) -> Result<Option<Seq<u8>>, FrameError> {
    if stream.len() < 8 {
        Ok(None)
    } else if stream.len() - 8 < announced_len(stream) {
        Err(FrameError::TruncatedPayload)
    } else {
        Ok(Some(stream.subrange(8, 8 + announced_len(stream) as int)))
    }
}

/// The bytes to write on the stream for `message`: its length, then itself.
pub fn tcp_send(message: &[u8]) -> (frame: Vec<u8>)
    ensures
        frame@ == frame_of(message@),
{
    let mut frame = u64_to_le_bytes(message.len() as u64);
    let ghost header = frame@;
    let mut i: usize = 0;
    while i < message.len()
        invariant
            i <= message@.len(),
            header == spec_u64_to_le_bytes(message@.len() as u64),
            frame@ == header + message@.subrange(0, i as int),
        decreases message@.len() - i,
    {
        frame.push(message[i]);
        i = i + 1;
        assert(frame@ =~= header + message@.subrange(0, i as int));
    }
    assert(message@.subrange(0, message@.len() as int) =~= message@);
    frame
}

/// The payload length announced by a length prefix.
pub fn frame_payload_len(header: &[u8]) -> (n: u64)
    requires
        header@.len() == FRAME_HEADER_LEN,
    ensures
        n == spec_u64_from_le_bytes(header@),
{
    u64_from_le_bytes(header)
}

/// Reads one message from the start of `stream`.
pub fn tcp_receive(stream: &[u8]) -> (r: Result<Option<Vec<u8>>, FrameError>)
    ensures
        match (r, received(stream@)) {
            (Ok(None), Ok(None)) => true,
            (Ok(Some(p)), Ok(Some(q))) => p@ == q,
            (Err(e), Err(f)) => e == f,
            _ => false,
        },
{
    if stream.len() < FRAME_HEADER_LEN {
        return Ok(None);
    }
    let header = vstd::slice::slice_subrange(stream, 0, FRAME_HEADER_LEN);
    let announced = frame_payload_len(header);
    if ((stream.len() - FRAME_HEADER_LEN) as u64) < announced {
        return Err(FrameError::TruncatedPayload);
    }
    let len = announced as usize;
    assert(len == announced);
    let mut payload: Vec<u8> = Vec::new();
    let mut i: usize = 0;
    while i < len
        invariant
            i <= len,
            8 + len <= stream@.len() <= usize::MAX,
            payload@ == stream@.subrange(8, 8 + i),
        decreases len - i,
    {
        payload.push(stream[FRAME_HEADER_LEN + i]);
        i = i + 1;
        assert(payload@ =~= stream@.subrange(8, 8 + i));
    }
    Ok(Some(payload))
}

/// Framing round trip: reading a message back from a stream that starts with
/// the frame of `payload` yields exactly `payload`, whatever follows the
/// frame; and a stream that closes before any byte arrives yields no message.
pub proof fn lemma_frame_round_trip(payload: Seq<u8>, rest: Seq<u8>)
    requires
        payload.len() <= u64::MAX,
    ensures
        received(frame_of(payload) + rest) == Ok::<Option<Seq<u8>>, FrameError>(Some(payload)),
        received(Seq::<u8>::empty()) == Ok::<Option<Seq<u8>>, FrameError>(None),
{
    lemma_auto_spec_u64_to_from_le_bytes();
    let stream = frame_of(payload) + rest;
    let header = spec_u64_to_le_bytes(payload.len() as u64);
    assert(stream.subrange(0, 8) =~= header);
    assert(announced_len(stream) == payload.len());
    assert(stream.subrange(8, 8 + payload.len() as int) =~= payload);
}

} // verus!
