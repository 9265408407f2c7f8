//! The wire contract: handshake token and length header.
//!
//! ```text
//! server -> client   "BANDIT-START"                       12 bytes
//! client -> server   "BANDIT-START"                       12 bytes (acknowledging clients only)
//! server -> client   "BHEAD" + length, little-endian u64  13 bytes
//! server -> client   <length> payload bytes
//! ```
//!
//! The token and the tag mark the protocol version. Changing either breaks
//! interoperability with every deployed peer.

use vstd::prelude::*;

verus! {

/// Number of bytes of the handshake token.
pub const HANDSHAKE_SIZE: usize = 12;

/// Number of bytes of the tag that opens a header.
pub const TAG_SIZE: usize = 5;

/// Number of bytes of a header: the tag, then the length.
pub const HEADER_SIZE: usize = 13;

/// The handshake token, ASCII `BANDIT-START`.
pub const HANDSHAKE: [u8; 12] = [66, 65, 78, 68, 73, 84, 45, 83, 84, 65, 82, 84];

/// Why a peer's bytes were not accepted.
#[derive(Clone, Copy, Debug, PartialEq, Eq, Structural)]
pub enum DecodeError {
    /// The twelve bytes received are not the handshake token.
    HandshakeMismatch,
    /// The frame does not open with the header tag.
    InvalidHeader,
}

/// The handshake token as a sequence of bytes.
pub open spec fn handshake_token() -> Seq<u8> {
    seq![66u8, 65u8, 78u8, 68u8, 73u8, 84u8, 45u8, 83u8, 84u8, 65u8, 82u8, 84u8]
}

/// The header tag, ASCII `BHEAD`, as a sequence of bytes.
pub open spec fn header_tag() -> Seq<u8> {
    seq![66u8, 72u8, 69u8, 65u8, 68u8]
}

/// The eight bytes of `value`, least significant first.
pub open spec fn le_bytes(value: u64) -> Seq<u8> {
    seq![
        (value % 0x100) as u8,
        (value / 0x100 % 0x100) as u8,
        (value / 0x1_0000 % 0x100) as u8,
        (value / 0x100_0000 % 0x100) as u8,
        (value / 0x1_0000_0000 % 0x100) as u8,
        (value / 0x100_0000_0000 % 0x100) as u8,
        (value / 0x1_0000_0000_0000 % 0x100) as u8,
        (value / 0x100_0000_0000_0000 % 0x100) as u8,
    ]
}

/// The number that eight bytes spell, least significant first.
pub open spec fn le_value(bytes: Seq<u8>) -> nat
    recommends
        bytes.len() == 8,
{
    (bytes[0] as nat)
        + 0x100 * (bytes[1] as nat)
        + 0x1_0000 * (bytes[2] as nat)
        + 0x100_0000 * (bytes[3] as nat)
        + 0x1_0000_0000 * (bytes[4] as nat)
        + 0x100_0000_0000 * (bytes[5] as nat)
        + 0x1_0000_0000_0000 * (bytes[6] as nat)
        + 0x100_0000_0000_0000 * (bytes[7] as nat)
}

/// The header that announces `payload_len` bytes: the tag, then the length.
pub open spec fn header_frame(payload_len: u64) -> Seq<u8> {
    header_tag() + le_bytes(payload_len)
}

/// Whether `frame` opens with the header tag.
pub open spec fn has_header_tag(frame: Seq<u8>) -> bool {
    frame.len() >= TAG_SIZE && frame.subrange(0, TAG_SIZE as int) == header_tag()
}

/// The payload length that the last eight bytes of a header spell.
pub open spec fn frame_length(frame: Seq<u8>) -> nat
    recommends
        frame.len() == HEADER_SIZE,
{
    le_value(frame.subrange(TAG_SIZE as int, HEADER_SIZE as int))
}

/// Eight bytes never spell more than a `u64` holds.
pub proof fn lemma_le_value_bound(bytes: Seq<u8>)
    requires
        bytes.len() == 8,
    ensures
        le_value(bytes) <= u64::MAX,
{
}

/// Writing a number as bytes and reading the bytes back gives the number.
pub proof fn lemma_le_round_trip(value: u64)
    ensures
        le_bytes(value).len() == 8,
        le_value(le_bytes(value)) == value,
{
    let v = value;
    assert(v as int == (v % 0x100) as int
        + 0x100 * (v / 0x100 % 0x100) as int
        + 0x1_0000 * (v / 0x1_0000 % 0x100) as int
        + 0x100_0000 * (v / 0x100_0000 % 0x100) as int
        + 0x1_0000_0000 * (v / 0x1_0000_0000 % 0x100) as int
        + 0x100_0000_0000 * (v / 0x100_0000_0000 % 0x100) as int
        + 0x1_0000_0000_0000 * (v / 0x1_0000_0000_0000 % 0x100) as int
        + 0x100_0000_0000_0000 * (v / 0x100_0000_0000_0000 % 0x100) as int) by (bit_vector);
}

/// The digits of a number that eight bytes spell are those bytes.
proof fn lemma_le_digits(v: u64, b0: u8, b1: u8, b2: u8, b3: u8, b4: u8, b5: u8, b6: u8, b7: u8)
    by (bit_vector)
    requires
        v as int == (b0 as int)
            + 0x100 * (b1 as int)
            + 0x1_0000 * (b2 as int)
            + 0x100_0000 * (b3 as int)
            + 0x1_0000_0000 * (b4 as int)
            + 0x100_0000_0000 * (b5 as int)
            + 0x1_0000_0000_0000 * (b6 as int)
            + 0x100_0000_0000_0000 * (b7 as int),
    ensures
        (v % 0x100) as int == b0 as int,
        (v / 0x100 % 0x100) as int == b1 as int,
        (v / 0x1_0000 % 0x100) as int == b2 as int,
        (v / 0x100_0000 % 0x100) as int == b3 as int,
        (v / 0x1_0000_0000 % 0x100) as int == b4 as int,
        (v / 0x100_0000_0000 % 0x100) as int == b5 as int,
        (v / 0x1_0000_0000_0000 % 0x100) as int == b6 as int,
        (v / 0x100_0000_0000_0000 % 0x100) as int == b7 as int,
{
}

/// Reading eight bytes as a number and writing the number gives the bytes.
pub proof fn lemma_le_bytes_of_value(bytes: Seq<u8>)
    requires
        bytes.len() == 8,
    ensures
        le_bytes(le_value(bytes) as u64) == bytes,
{
    lemma_le_value_bound(bytes);
    let v = le_value(bytes) as u64;
    lemma_le_digits(
        v,
        bytes[0],
        bytes[1],
        bytes[2],
        bytes[3],
        bytes[4],
        bytes[5],
        bytes[6],
        bytes[7],
    );
    assert(le_bytes(v) =~= bytes);
}

/// Builds the header that announces `payload_len` bytes.
pub fn encode_header(payload_len: u64) -> (frame: [u8; HEADER_SIZE])
    ensures
        frame@ == header_frame(payload_len),
{
    let frame: [u8; HEADER_SIZE] = [
        66,
        72,
        69,
        65,
        68,
        (payload_len % 0x100) as u8,
        (payload_len / 0x100 % 0x100) as u8,
        (payload_len / 0x1_0000 % 0x100) as u8,
        (payload_len / 0x100_0000 % 0x100) as u8,
        (payload_len / 0x1_0000_0000 % 0x100) as u8,
        (payload_len / 0x100_0000_0000 % 0x100) as u8,
        (payload_len / 0x1_0000_0000_0000 % 0x100) as u8,
        (payload_len / 0x100_0000_0000_0000 % 0x100) as u8,
    ];
    assert(frame@ =~= header_frame(payload_len));
    frame
}

/// Builds the header for a payload of `len` bytes held in memory.
pub fn header(len: usize) -> (frame: [u8; HEADER_SIZE])
    ensures
        frame@ == header_frame(len as u64),
{
    encode_header(len as u64)
}

/// Reads a header: the announced length if the frame opens with the tag,
/// `InvalidHeader` if it does not. The length itself is not judged.
pub fn decode_header(frame: &[u8; HEADER_SIZE]) -> (r: Result<u64, DecodeError>)
    ensures
        has_header_tag(frame@) ==> r == Ok::<u64, DecodeError>(frame_length(frame@) as u64),
        has_header_tag(frame@) ==> header_frame(frame_length(frame@) as u64) == frame@,
        !has_header_tag(frame@) ==> r == Err::<u64, DecodeError>(DecodeError::InvalidHeader),
{
    if frame[0] == 66 && frame[1] == 72 && frame[2] == 69 && frame[3] == 65 && frame[4] == 68 {
        let value: u64 = (frame[5] as u64)
            + 0x100 * (frame[6] as u64)
            + 0x1_0000 * (frame[7] as u64)
            + 0x100_0000 * (frame[8] as u64)
            + 0x1_0000_0000 * (frame[9] as u64)
            + 0x100_0000_0000 * (frame[10] as u64)
            + 0x1_0000_0000_0000 * (frame[11] as u64)
            + 0x100_0000_0000_0000 * (frame[12] as u64);
        proof {
            let tail = frame@.subrange(TAG_SIZE as int, HEADER_SIZE as int);
            assert(frame@.subrange(0, TAG_SIZE as int) =~= header_tag());
            lemma_le_bytes_of_value(tail);
            assert(header_frame(value) =~= frame@);
        }
        Ok(value)
    } else {
        proof {
            let head = frame@.subrange(0, TAG_SIZE as int);
            assert(head[0] == frame@[0] && head[1] == frame@[1] && head[2] == frame@[2]
                && head[3] == frame@[3] && head[4] == frame@[4]);
        }
        Err(DecodeError::InvalidHeader)
    }
}

/// Accepts the twelve bytes a peer sent if and only if they are the
/// handshake token.
pub fn check_handshake(bytes: &[u8; HANDSHAKE_SIZE]) -> (r: Result<(), DecodeError>)
    ensures
        bytes@ == handshake_token() ==> r == Ok::<(), DecodeError>(()),
        bytes@ != handshake_token() ==> r == Err::<(), DecodeError>(
            DecodeError::HandshakeMismatch,
        ),
{
    let mut i: usize = 0;
    while i < HANDSHAKE_SIZE
        invariant
            i <= HANDSHAKE_SIZE,
            HANDSHAKE@ == handshake_token(),
            forall|j: int| 0 <= j < i ==> bytes@[j] == handshake_token()[j],
        decreases HANDSHAKE_SIZE - i,
    {
        if bytes[i] != HANDSHAKE[i] {
            return Err(DecodeError::HandshakeMismatch);
        }
        i += 1;
    }
    assert(bytes@ =~= handshake_token());
    Ok(())
}

/// A header that was encoded decodes to the length it was encoded from.
pub proof fn lemma_header_round_trip(payload_len: u64)
    ensures
        header_frame(payload_len).len() == HEADER_SIZE,
        has_header_tag(header_frame(payload_len)),
        frame_length(header_frame(payload_len)) == payload_len,
{
    let frame = header_frame(payload_len);
    lemma_le_round_trip(payload_len);
    assert(frame.subrange(0, TAG_SIZE as int) =~= header_tag());
    assert(frame.subrange(TAG_SIZE as int, HEADER_SIZE as int) =~= le_bytes(payload_len));
}

/// A frame that does not open with the tag has no length, whatever its
/// last eight bytes are: it is the header of no payload.
pub proof fn lemma_header_rejection(frame: Seq<u8>, payload_len: u64)
    requires
        frame.len() == HEADER_SIZE,
        !has_header_tag(frame),
    ensures
        frame != header_frame(payload_len),
{
    lemma_header_round_trip(payload_len);
}

/// The constant `HANDSHAKE` holds the token.
pub proof fn lemma_handshake_constant()
    ensures
        HANDSHAKE@ == handshake_token(),
{
    assert(HANDSHAKE@ =~= handshake_token());
}

/// A sequence that differs from the token in one byte is not the token.
pub proof fn lemma_handshake_rejection(bytes: Seq<u8>, i: int)
    requires
        bytes.len() == HANDSHAKE_SIZE,
        0 <= i < HANDSHAKE_SIZE,
        bytes[i] != handshake_token()[i],
    ensures
        bytes != handshake_token(),
{
}

} // verus!
