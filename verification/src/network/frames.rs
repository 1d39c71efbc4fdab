use vstd::bytes::*;
use vstd::prelude::*;
use vstd::slice::*;

use crate::common::message::message::MessageView;
use crate::common::message::wire::{spec_decode, spec_u64_at, DecodeError, HEADER_LEN};

verus! {

/// The length of the frame at the start of `bytes`, if all of it is there:
/// the header and as many bytes of payload as the header announces.
pub open spec fn spec_frame_len(bytes: Seq<u8>) -> Option<int> {
    if bytes.len() < HEADER_LEN {
        None
    } else {
        let len = spec_u64_at(bytes, 36);
        if bytes.len() - HEADER_LEN < len {
            None
        } else {
            Some(HEADER_LEN + len)
        }
    }
}

/// Takes the first complete frame out of an accumulation buffer.
///
/// Gives the bytes of the frame and leaves what follows it in the buffer.
/// While the frame is incomplete nothing is given and the buffer keeps what
/// it has.
pub fn take_frame(buffer: &mut Vec<u8>) -> (frame: Option<Vec<u8>>)
    ensures
        match spec_frame_len(old(buffer)@) {
            Some(n) => frame is Some && frame->0@ == old(buffer)@.subrange(0, n) && final(buffer)@
                == old(buffer)@.subrange(n, old(buffer)@.len() as int),
            None => frame is None && final(buffer)@ == old(buffer)@,
        },
{
    let total: usize = buffer.len();
    if total < HEADER_LEN {
        return None;
    }
    let len: u64 = u64_from_le_bytes(slice_subrange(buffer.as_slice(), 36, 44));
    if ((total - HEADER_LEN) as u64) < len {
        return None;
    }
    let n: usize = HEADER_LEN + len as usize;
    let rest = buffer.split_off(n);
    let mut frame = rest;
    std::mem::swap(buffer, &mut frame);
    Some(frame)
}

/// Adds plaintext to the end of an accumulation buffer.
pub fn accumulate(buffer: &mut Vec<u8>, plaintext: &Vec<u8>)
    ensures
        final(buffer)@ == old(buffer)@ + plaintext@,
{
    let mut bytes = plaintext.clone();
    buffer.append(&mut bytes);
}

/// Where bytes start with a frame that can be read, the frame is complete and
/// as long as the reader says.
pub proof fn lemma_decoded_frame_is_complete(bytes: Seq<u8>)
    requires
        spec_decode(bytes) is Ok,
    ensures
        spec_frame_len(bytes) == Some(spec_decode(bytes)->Ok_0.1),
{
}

/// A complete frame reads the same alone as with bytes behind it.
pub proof fn lemma_frame_reads_alone(bytes: Seq<u8>)
    requires
        spec_frame_len(bytes) is Some,
    ensures
        ({
            let n = spec_frame_len(bytes)->0;
            match spec_decode(bytes) {
                Ok((m, k)) => k == n && spec_decode(bytes.subrange(0, n)) == Ok::<
                    (MessageView, int),
                    DecodeError,
                >((m, n)),
                Err(e) => e != DecodeError::Truncated && spec_decode(bytes.subrange(0, n)) == Err::<
                    (MessageView, int),
                    DecodeError,
                >(e),
            }
        }),
{
    let n = spec_frame_len(bytes)->0;
    let frame = bytes.subrange(0, n);
    assert(frame.subrange(0, 4) == bytes.subrange(0, 4));
    assert(frame.subrange(4, 12) == bytes.subrange(4, 12));
    assert(frame.subrange(12, 20) == bytes.subrange(12, 20));
    assert(frame.subrange(20, 28) == bytes.subrange(20, 28));
    assert(frame.subrange(28, 36) == bytes.subrange(28, 36));
    assert(frame.subrange(36, 44) == bytes.subrange(36, 44));
    assert(frame.subrange(44, n) == bytes.subrange(44, n));
}

} // verus!
