//! Wire framing: a length prefix of four bytes, then the payload.

use vstd::prelude::*;
use crate::bytes::{copy_range, le_bytes, le_u32_at, lemma_le_round_trip, u32_from_le};

verus! {

/// Length of the prefix that announces a payload's length.
pub const HEADER_LEN: usize = 4;

/// One command as it came off the wire: the payload's first byte and the rest.
#[derive(Clone, Debug, PartialEq, Eq)]
pub struct CommandFrame {
    pub opcode: u8,
    pub payload: Vec<u8>,
}

/// A command frame over mathematical bytes.
pub struct FrameView {
    pub opcode: u8,
    pub payload: Seq<u8>,
}

impl View for CommandFrame {
    type V = FrameView;

    open spec fn view(&self) -> FrameView {
        FrameView { opcode: self.opcode, payload: self.payload@ }
    }
}

/// Why a byte stream yields no frame.  Either ends the connection.
#[derive(Clone, Copy, Debug, PartialEq, Eq, Structural)]
pub enum FrameError {
    /// The stream ended inside the length prefix or inside the payload.
    Truncated,
    /// The length prefix announces a payload of no bytes.
    EmptyPayload,
}

/// The payload length that the first four bytes of `bytes` announce.
pub open spec fn announced_len(bytes: Seq<u8>) -> int {
    le_u32_at(bytes, 0)
}

/// The bytes that carry `payload` on the wire.
pub open spec fn frame_bytes(payload: Seq<u8>) -> Seq<u8> {
    le_bytes(payload.len() as int) + payload
}

/// The frame at the head of `bytes` and the number of bytes it takes up.
pub open spec fn decoded(bytes: Seq<u8>) -> Result<(FrameView, int), FrameError> {
    if bytes.len() < HEADER_LEN {
        Err(FrameError::Truncated)
    } else if announced_len(bytes) == 0 {
        Err(FrameError::EmptyPayload)
    } else if bytes.len() - HEADER_LEN < announced_len(bytes) {
        Err(FrameError::Truncated)
    } else {
        Ok(
            (
                FrameView {
                    opcode: bytes[HEADER_LEN as int],
                    payload: bytes.subrange(
                        HEADER_LEN + 1,
                        HEADER_LEN + announced_len(bytes),
                    ),
                },
                HEADER_LEN + announced_len(bytes),
            ),
        )
    }
}

/// The frame that a complete payload holds.
pub open spec fn split(payload: Seq<u8>) -> Result<FrameView, FrameError> {
    if payload.len() == 0 {
        Err(FrameError::EmptyPayload)
    } else {
        Ok(FrameView { opcode: payload[0], payload: payload.subrange(1, payload.len() as int) })
    }
}

/// Reads the length prefix: the number of payload bytes that follow.
pub fn payload_length(header: &[u8]) -> (r: Result<u32, FrameError>)
    ensures
        match r {
            Ok(n) => header@.len() >= HEADER_LEN && n != 0 && n == announced_len(header@),
            Err(FrameError::Truncated) => header@.len() < HEADER_LEN,
            Err(FrameError::EmptyPayload) => header@.len() >= HEADER_LEN && announced_len(header@)
                == 0,
        },
{
    if header.len() < HEADER_LEN {
        return Err(FrameError::Truncated);
    }
    let n = u32_from_le(header[0], header[1], header[2], header[3]);
    if n == 0 {
        Err(FrameError::EmptyPayload)
    } else {
        Ok(n)
    }
}

/// Splits a complete payload into its opcode and the bytes after it.
pub fn split_payload(payload: &[u8]) -> (r: Result<CommandFrame, FrameError>)
    ensures
        match r {
            Ok(frame) => split(payload@) == Ok::<FrameView, FrameError>(frame@),
            Err(e) => split(payload@) == Err::<FrameView, FrameError>(e),
        },
{
    if payload.len() == 0 {
        Err(FrameError::EmptyPayload)
    } else {
        Ok(CommandFrame { opcode: payload[0], payload: copy_range(payload, 1, payload.len()) })
    }
}

/// Decodes the frame at the head of `bytes`; with it comes the number of bytes
/// that the frame takes up, prefix included.
pub fn decode_frame(bytes: &[u8]) -> (r: Result<(CommandFrame, usize), FrameError>)
    ensures
        match r {
            Ok((frame, used)) => decoded(bytes@) == Ok::<(FrameView, int), FrameError>(
                (frame@, used as int),
            ),
            Err(e) => decoded(bytes@) == Err::<(FrameView, int), FrameError>(e),
        },
{
    let n = match payload_length(bytes) {
        Ok(n) => n,
        Err(e) => {
            return Err(e);
        },
    };
    let rest: usize = bytes.len() - HEADER_LEN;
    if (rest as u64) < (n as u64) {
        return Err(FrameError::Truncated);
    }
    let end: usize = HEADER_LEN + n as usize;
    let frame = CommandFrame {
        opcode: bytes[HEADER_LEN],
        payload: copy_range(bytes, HEADER_LEN + 1, end),
    };
    Ok((frame, end))
}

/// A payload of at least one byte, framed and decoded again, comes back whole:
/// its first byte as the opcode, the rest unchanged, and nothing left over.
pub proof fn lemma_frame_round_trip(payload: Seq<u8>)
    requires
        1 <= payload.len() <= u32::MAX,
    ensures
        decoded(frame_bytes(payload)) == Ok::<(FrameView, int), FrameError>(
            (
                FrameView {
                    opcode: payload[0],
                    payload: payload.subrange(1, payload.len() as int),
                },
                frame_bytes(payload).len() as int,
            ),
        ),
        frame_bytes(payload).len() == HEADER_LEN + payload.len(),
{
    let n = payload.len() as int;
    let bytes = frame_bytes(payload);
    lemma_le_round_trip(n);
    assert(announced_len(bytes) == announced_len(le_bytes(n)));
    assert(bytes.subrange(5, 4 + n) =~= payload.subrange(1, n));
}

/// Bytes that follow a frame do not change what is decoded from its head.
pub proof fn lemma_frame_prefix(payload: Seq<u8>, rest: Seq<u8>)
    requires
        1 <= payload.len() <= u32::MAX,
    ensures
        decoded(frame_bytes(payload) + rest) == decoded(frame_bytes(payload)),
{
    let n = payload.len() as int;
    let bytes = frame_bytes(payload);
    let more = bytes + rest;
    lemma_frame_round_trip(payload);
    assert(announced_len(more) == announced_len(bytes));
    assert(more.subrange(5, 4 + n) =~= bytes.subrange(5, 4 + n));
}

} // verus!
