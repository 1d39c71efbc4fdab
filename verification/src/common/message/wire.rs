use vstd::bytes::*;
use vstd::prelude::*;
use vstd::slice::*;

use crate::common::message::message::{Message, MessageView};
use crate::common::message::message_type::MessageType;

verus! {

/// Why bytes could not be read as a frame.
#[derive(Clone, Copy, Debug, PartialEq, Eq, Structural)]
pub enum DecodeError {
    /// The bytes end before the frame does; more may still arrive.
    Truncated,
    /// The first four bytes name no message type.
    UnknownMessageType,
    /// A count or the payload length does not fit this machine's `usize`.
    Oversized,
}

/// The bytes of a frame before its payload: a four-byte type and five
/// eight-byte numbers.
pub const HEADER_LEN: usize = 44;

/// The wire form of a frame: type, instruction, argument count, message
/// number, message maximum and payload length, each little-endian, then the
/// payload.
pub open spec fn spec_encode(m: MessageView) -> Seq<u8> {
    spec_u32_to_le_bytes(m.message_type.spec_tag()) + spec_u64_to_le_bytes(m.instruction as u64)
        + spec_u64_to_le_bytes(m.argument_count as u64) + spec_u64_to_le_bytes(
        m.data_message_number as u64,
    ) + spec_u64_to_le_bytes(m.data_message_max as u64) + spec_u64_to_le_bytes(m.data.len() as u64)
        + m.data
}

/// The eight-byte number that starts at `at`.
pub open spec fn spec_u64_at(bytes: Seq<u8>, at: int) -> u64 {
    spec_u64_from_le_bytes(bytes.subrange(at, at + 8))
}

/// The frame at the start of `bytes` and the number of bytes it takes, or the
/// reason why there is none. Bytes after the frame are left alone.
pub open spec fn spec_decode(bytes: Seq<u8>) -> Result<(MessageView, int), DecodeError> {
    if bytes.len() < HEADER_LEN {
        Err(DecodeError::Truncated)
    } else {
        let message_type = MessageType::spec_from_tag(spec_u32_from_le_bytes(bytes.subrange(0, 4)));
        let instruction = spec_u64_at(bytes, 4);
        let argument_count = spec_u64_at(bytes, 12);
        let data_message_number = spec_u64_at(bytes, 20);
        let data_message_max = spec_u64_at(bytes, 28);
        let len = spec_u64_at(bytes, 36);
        if message_type is None {
            Err(DecodeError::UnknownMessageType)
        } else if argument_count > usize::MAX || data_message_number > usize::MAX
            || data_message_max > usize::MAX || len > usize::MAX {
            Err(DecodeError::Oversized)
        } else if bytes.len() - HEADER_LEN < len {
            Err(DecodeError::Truncated)
        } else {
            Ok(
                (
                    MessageView {
                        message_type: message_type->0,
                        instruction: instruction as i64,
                        argument_count: argument_count as usize,
                        data_message_number: data_message_number as usize,
                        data_message_max: data_message_max as usize,
                        data: bytes.subrange(HEADER_LEN as int, HEADER_LEN + len),
                    },
                    HEADER_LEN + len,
                ),
            )
        }
    }
}

/// Writes a frame in its wire form. What is written reads back as the frame.
pub fn encode(message: &Message) -> (bytes: Vec<u8>)
    ensures
        bytes@ == spec_encode(message@),
        spec_decode(bytes@) == Ok::<(MessageView, int), DecodeError>(
            (message@, bytes@.len() as int),
        ),
{
    let mut bytes = u32_to_le_bytes(message.message_type.tag());
    let mut instruction = u64_to_le_bytes(message.instruction as u64);
    bytes.append(&mut instruction);
    let mut argument_count = u64_to_le_bytes(message.argument_count as u64);
    bytes.append(&mut argument_count);
    let mut data_message_number = u64_to_le_bytes(message.data_message_number as u64);
    bytes.append(&mut data_message_number);
    let mut data_message_max = u64_to_le_bytes(message.data_message_max as u64);
    bytes.append(&mut data_message_max);
    let mut len = u64_to_le_bytes(message.data.len() as u64);
    bytes.append(&mut len);
    let mut data = message.data.clone();
    bytes.append(&mut data);
    proof {
        lemma_decode_encode(message@);
    }
    bytes
}

/// Reads the eight-byte number that starts at `at`.
fn u64_at(bytes: &[u8], at: usize) -> (x: u64)
    requires
        at + 8 <= bytes@.len(),
        at + 8 <= usize::MAX,
    ensures
        x == spec_u64_at(bytes@, at as int),
{
    u64_from_le_bytes(slice_subrange(bytes, at, at + 8))
}

/// Reads the frame at the start of `bytes` and says how many bytes it took.
pub fn decode_prefix(bytes: &[u8]) -> (r: Result<(Message, usize), DecodeError>)
    ensures
        match spec_decode(bytes@) {
            Ok((m, n)) => r matches Ok((message, taken)) && message@ == m && taken == n,
            Err(e) => r == Err::<(Message, usize), DecodeError>(e),
        },
{
    if bytes.len() < HEADER_LEN {
        return Err(DecodeError::Truncated);
    }
    let tag = u32_from_le_bytes(slice_subrange(bytes, 0, 4));
    let instruction = u64_at(bytes, 4);
    let argument_count = u64_at(bytes, 12);
    let data_message_number = u64_at(bytes, 20);
    let data_message_max = u64_at(bytes, 28);
    let len = u64_at(bytes, 36);
    let message_type = match MessageType::from_tag(tag) {
        Some(message_type) => message_type,
        None => {
            return Err(DecodeError::UnknownMessageType);
        },
    };
    if argument_count > usize::MAX as u64 || data_message_number > usize::MAX as u64
        || data_message_max > usize::MAX as u64 || len > usize::MAX as u64 {
        return Err(DecodeError::Oversized);
    }
    if ((bytes.len() - HEADER_LEN) as u64) < len {
        return Err(DecodeError::Truncated);
    }
    let end = HEADER_LEN + len as usize;
    let data = slice_to_vec(slice_subrange(bytes, HEADER_LEN, end));
    Ok(
        (
            Message {
                message_type,
                instruction: instruction as i64,
                argument_count: argument_count as usize,
                data_message_number: data_message_number as usize,
                data_message_max: data_message_max as usize,
                data,
            },
            end,
        ),
    )
}

/// Reads a frame from the start of `bytes`; what follows it is ignored.
pub fn decode(bytes: &[u8]) -> (r: Result<Message, DecodeError>)
    ensures
        match spec_decode(bytes@) {
            Ok((m, n)) => r is Ok && r->Ok_0@ == m,
            Err(e) => r == Err::<Message, DecodeError>(e),
        },
{
    match decode_prefix(bytes) {
        Ok((message, _)) => Ok(message),
        Err(e) => Err(e),
    }
}

/// A frame that was written, followed by anything, is read back as it was,
/// and the reader takes exactly the bytes that were written.
pub proof fn lemma_decode_encode_prefix(m: MessageView, rest: Seq<u8>)
    requires
        m.data.len() <= usize::MAX,
    ensures
        spec_decode(spec_encode(m) + rest) == Ok::<(MessageView, int), DecodeError>(
            (m, spec_encode(m).len() as int),
        ),
        spec_encode(m).len() == HEADER_LEN + m.data.len(),
{
    lemma_auto_spec_u32_to_from_le_bytes();
    lemma_auto_spec_u64_to_from_le_bytes();
    let tag = spec_u32_to_le_bytes(m.message_type.spec_tag());
    let instruction = spec_u64_to_le_bytes(m.instruction as u64);
    let argument_count = spec_u64_to_le_bytes(m.argument_count as u64);
    let data_message_number = spec_u64_to_le_bytes(m.data_message_number as u64);
    let data_message_max = spec_u64_to_le_bytes(m.data_message_max as u64);
    let len = spec_u64_to_le_bytes(m.data.len() as u64);
    let bytes = spec_encode(m) + rest;
    assert(bytes.subrange(0, 4) == tag);
    assert(bytes.subrange(4, 12) == instruction);
    assert(bytes.subrange(12, 20) == argument_count);
    assert(bytes.subrange(20, 28) == data_message_number);
    assert(bytes.subrange(28, 36) == data_message_max);
    assert(bytes.subrange(36, 44) == len);
    assert(bytes.subrange(44, 44 + m.data.len() as int) == m.data);
    m.message_type.lemma_tag_round_trip();
    let x = m.instruction;
    assert((x as u64) as i64 == x) by (bit_vector);
}

/// Round trip: reading what `encode` wrote gives the frame back.
pub proof fn lemma_decode_encode(m: MessageView)
    requires
        m.data.len() <= usize::MAX,
    ensures
        spec_decode(spec_encode(m)) == Ok::<(MessageView, int), DecodeError>(
            (m, spec_encode(m).len() as int),
        ),
{
    lemma_decode_encode_prefix(m, Seq::empty());
    assert(spec_encode(m) + Seq::<u8>::empty() == spec_encode(m));
}

/// What was read as a frame is what writing that frame gives: the reader
/// accepts no second form of a frame.
pub proof fn lemma_encode_decode(bytes: Seq<u8>)
    requires
        spec_decode(bytes) is Ok,
    ensures
        ({
            let (m, n) = spec_decode(bytes)->Ok_0;
            spec_encode(m) == bytes.subrange(0, n)
        }),
{
    lemma_auto_spec_u32_to_from_le_bytes();
    lemma_auto_spec_u64_to_from_le_bytes();
    let (m, n) = spec_decode(bytes)->Ok_0;
    let tag = spec_u32_from_le_bytes(bytes.subrange(0, 4));
    assert(tag == m.message_type.spec_tag());
    let instruction = spec_u64_at(bytes, 4);
    assert((instruction as i64) as u64 == instruction) by (bit_vector);
    assert(spec_u32_to_le_bytes(tag) == bytes.subrange(0, 4));
    assert(spec_u64_to_le_bytes(instruction) == bytes.subrange(4, 12));
    assert(spec_u64_to_le_bytes(spec_u64_at(bytes, 12)) == bytes.subrange(12, 20));
    assert(spec_u64_to_le_bytes(spec_u64_at(bytes, 20)) == bytes.subrange(20, 28));
    assert(spec_u64_to_le_bytes(spec_u64_at(bytes, 28)) == bytes.subrange(28, 36));
    assert(spec_u64_to_le_bytes(spec_u64_at(bytes, 36)) == bytes.subrange(36, 44));
    assert(bytes.subrange(0, 4) + bytes.subrange(4, 12) + bytes.subrange(12, 20) + bytes.subrange(
        20,
        28,
    ) + bytes.subrange(28, 36) + bytes.subrange(36, 44) + bytes.subrange(44, n) == bytes.subrange(
        0,
        n,
    ));
}

} // verus!
