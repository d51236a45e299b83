//! The frame codec: every message in either direction is a fixed 14-byte
//! header followed by a length-prefixed payload. The header is a 6-byte magic
//! marker, then the payload length and the message type, each a little-endian
//! u32.

use vstd::prelude::*;
use vstd::bytes::{
    lemma_auto_spec_u32_to_from_le_bytes, spec_u32_from_le_bytes, spec_u32_to_le_bytes,
    u32_from_le_bytes, u32_to_le_bytes,
};
use vstd::slice::slice_subrange;

use crate::errors::IpcError;

verus! {

/// The number of bytes in a frame header.
pub const HEADER_LEN: usize = 14;

/// The four request kinds the compositor understands. The set is closed:
/// nothing else is ever sent, and the type of a received frame is reported
/// as a raw number rather than validated against it.
#[derive(Clone, Copy, Debug, PartialEq, Eq, Structural)]
pub enum MessageType {
    RunCommand,
    GetWorkspaces,
    Subscribe,
    GetOutputs,
}

impl MessageType {
    /// The wire code of this message type.
    pub open spec fn spec_code(self) -> u32 {
        match self {
            MessageType::RunCommand => 0,
            MessageType::GetWorkspaces => 1,
            MessageType::Subscribe => 2,
            MessageType::GetOutputs => 3,
        }
    }

    /// The wire code of this message type.
    pub fn code(self) -> (c: u32)
        ensures
            c == self.spec_code(),
    {
        match self {
            MessageType::RunCommand => 0,
            MessageType::GetWorkspaces => 1,
            MessageType::Subscribe => 2,
            MessageType::GetOutputs => 3,
        }
    }
}

/// The six magic bytes that open every frame.
pub open spec fn spec_magic() -> Seq<u8> {
    seq![105u8, 51u8, 45u8, 105u8, 112u8, 99u8]
}

/// The magic marker as a fresh byte vector.
pub fn magic() -> (m: Vec<u8>)
    ensures
        m@ == spec_magic(),
{
    let mut m: Vec<u8> = Vec::new();
    m.push(105);
    m.push(51);
    m.push(45);
    m.push(105);
    m.push(112);
    m.push(99);
    proof {
        assert(m@ =~= spec_magic());
    }
    m
}

/// The header bytes announcing a payload of `payload_len` bytes carrying a
/// message of type `code`.
pub open spec fn spec_header(payload_len: u32, code: u32) -> Seq<u8> {
    spec_magic() + spec_u32_to_le_bytes(payload_len) + spec_u32_to_le_bytes(code)
}

/// The full frame for a payload: its header followed by the payload bytes.
pub open spec fn spec_frame(code: u32, payload: Seq<u8>) -> Seq<u8> {
    spec_header(payload.len() as u32, code) + payload
}

/// What `decode_header` reads out of 14 header bytes: the payload length and
/// the raw message type, or nothing when the magic marker is wrong.
pub open spec fn spec_decode_header(header: Seq<u8>) -> Option<(u32, u32)> {
    if header.subrange(0, 6) == spec_magic() {
        Some(
            (
                spec_u32_from_le_bytes(header.subrange(6, 10)),
                spec_u32_from_le_bytes(header.subrange(10, 14)),
            ),
        )
    } else {
        None
    }
}

/// Encodes one outgoing frame: magic marker, payload length, message type,
/// then the raw payload, with no padding. A payload of length 0 is valid and
/// contributes no bytes after the header.
pub fn encode(msg_type: MessageType, payload: &Vec<u8>) -> (frame: Vec<u8>)
    requires
        payload@.len() <= u32::MAX,
    ensures
        frame@ == spec_frame(msg_type.spec_code(), payload@),
        frame@.len() == HEADER_LEN + payload@.len(),
{
    proof {
        lemma_auto_spec_u32_to_from_le_bytes();
    }
    let mut frame = magic();
    let mut len_bytes = u32_to_le_bytes(payload.len() as u32);
    frame.append(&mut len_bytes);
    let mut code_bytes = u32_to_le_bytes(msg_type.code());
    frame.append(&mut code_bytes);
    let ghost header = frame@;
    assert(header == spec_header(payload@.len() as u32, msg_type.spec_code()));
    let mut i: usize = 0;
    while i < payload.len()
        invariant
            i <= payload@.len(),
            frame@ == header + payload@.subrange(0, i as int),
        decreases payload@.len() - i,
    {
        frame.push(payload[i]);
        proof {
            assert(header + payload@.subrange(0, i as int) + seq![payload@[i as int]] =~= header
                + payload@.subrange(0, i as int + 1));
        }
        i += 1;
    }
    proof {
        assert(payload@.subrange(0, payload@.len() as int) =~= payload@);
    }
    frame
}

/// Decodes the fixed-size header of an incoming frame, yielding the payload
/// length to read next and the raw message type. Fails exactly when the first
/// six bytes are not the magic marker; the message type itself is not
/// validated.
pub fn decode_header(header: &[u8]) -> (r: Result<(u32, u32), IpcError>)
    requires
        header@.len() == HEADER_LEN,
    ensures
        r is Ok <==> spec_decode_header(header@) is Some,
        r is Ok ==> Some(r->Ok_0) == spec_decode_header(header@),
        r is Err ==> r->Err_0 == IpcError::ProtocolMismatch,
{
    let expected = magic();
    let mut i: usize = 0;
    while i < 6
        invariant
            i <= 6,
            header@.len() == 14,
            expected@ == spec_magic(),
            forall|j: int| 0 <= j < i ==> header@[j] == spec_magic()[j],
        decreases 6 - i,
    {
        if header[i] != expected[i] {
            proof {
                assert(header@.subrange(0, 6)[i as int] != spec_magic()[i as int]);
            }
            return Err(IpcError::ProtocolMismatch);
        }
        i += 1;
    }
    proof {
        assert(header@.subrange(0, 6) =~= spec_magic());
    }
    let payload_len = u32_from_le_bytes(slice_subrange(header, 6, 10));
    let code = u32_from_le_bytes(slice_subrange(header, 10, 14));
    Ok((payload_len, code))
}

/// Replies are expected to echo the request's message type; a reply of any
/// other type is treated as a protocol mismatch rather than interpreted.
pub fn check_reply_type(expected: MessageType, code: u32) -> (r: Result<(), IpcError>)
    ensures
        r is Ok <==> code == expected.spec_code(),
        r is Err ==> r->Err_0 == IpcError::ProtocolMismatch,
{
    if code == expected.code() {
        Ok(())
    } else {
        Err(IpcError::ProtocolMismatch)
    }
}

/// Round trip of the codec: decoding the header of an encoded frame yields
/// exactly the payload length and the message type that were encoded, for
/// every message type and every payload that fits the length field.
pub proof fn lemma_header_round_trip(msg_type: MessageType, payload: Seq<u8>)
    requires
        payload.len() <= u32::MAX,
    ensures
        spec_decode_header(spec_frame(msg_type.spec_code(), payload).subrange(0, 14)) == Some(
            ((payload.len() as u32, msg_type.spec_code())),
        ),
{
    lemma_auto_spec_u32_to_from_le_bytes();
    let frame = spec_frame(msg_type.spec_code(), payload);
    let header = frame.subrange(0, 14);
    assert(header.subrange(0, 6) =~= spec_magic());
    assert(header.subrange(6, 10) =~= spec_u32_to_le_bytes(payload.len() as u32));
    assert(header.subrange(10, 14) =~= spec_u32_to_le_bytes(msg_type.spec_code()));
}

} // verus!
