//! Length-delimited framing: each frame on the stream is a 4-byte
//! little-endian length followed by that many bytes of sealed payload.

use vstd::prelude::*;
use crate::endian::{
    get_le, le_bytes, le_value, lemma_le_bytes_len, lemma_le_value_of_bytes,
    lemma_radix_pow_values, put_le,
};

verus! {

/// Length of the length field in front of every frame.
pub const FRAME_HEADER_LEN: usize = 4;

/// The longest frame body that either side sends or accepts: 16 MiB.
pub const MAX_FRAME_LEN: usize = 0x100_0000;

/// The only way a frame can be wrong: its body is longer than `MAX_FRAME_LEN`.
#[derive(Clone, Copy, Debug, PartialEq, Eq, Structural)]
pub enum FrameError {
    TooLong,
}

/// The bytes that carry `body` on the stream.
pub open spec fn frame_bytes(body: Seq<u8>) -> Seq<u8> {
    le_bytes(body.len(), 4) + body
}

/// What the front of a receive buffer holds: not yet a whole frame (`Ok(None)`),
/// a frame's body and the number of bytes it took from the buffer, or a
/// length field beyond the limit.
pub open spec fn parse_frame(buf: Seq<u8>) -> Result<Option<(Seq<u8>, nat)>, FrameError> {
    if buf.len() < 4 {
        Ok(None)
    } else {
        let len = le_value(buf.subrange(0, 4));
        if len > MAX_FRAME_LEN {
            Err(FrameError::TooLong)
        } else if buf.len() < 4 + len {
            Ok(None)
        } else {
            Ok(Some((buf.subrange(4, 4 + len as int), 4 + len)))
        }
    }
}

/// Puts the length field in front of `body`. A body over the limit is refused.
pub fn encode_frame(body: &[u8]) -> (r: Result<Vec<u8>, FrameError>)
    ensures
        body@.len() <= MAX_FRAME_LEN ==> (r matches Ok(frame) && frame@ == frame_bytes(body@)),
        body@.len() > MAX_FRAME_LEN ==> r == Err::<Vec<u8>, FrameError>(FrameError::TooLong),
{
    let len: usize = body.len();
    if len > MAX_FRAME_LEN {
        return Err(FrameError::TooLong);
    }
    let mut frame: Vec<u8> = Vec::new();
    put_le(&mut frame, len as u128, 4);
    let mut i: usize = 0;
    while i < len
        invariant
            i <= len == body@.len(),
            frame@ == le_bytes(len as nat, 4) + body@.subrange(0, i as int),
        decreases len - i,
    {
        frame.push(body[i]);
        i = i + 1;
    }
    assert(body@.subrange(0, len as int) =~= body@);
    Ok(frame)
}

/// Takes one frame off the front of `buf`, if a whole one is there.
///
/// `Ok(None)` asks for more bytes. `Ok(Some((body, consumed)))` hands out the
/// body; the caller drops the first `consumed` bytes of its buffer. A length
/// field over the limit is an error as soon as the four bytes are there,
/// however little of the body has arrived.
pub fn decode_frame(buf: &[u8]) -> (r: Result<Option<(Vec<u8>, usize)>, FrameError>)
    ensures
        match parse_frame(buf@) {
            Ok(Some((body, consumed))) => r matches Ok(Some((b, c))) && b@ == body && c
                == consumed,
            Ok(None) => r matches Ok(None),
            Err(e) => r matches Err(f) && f == e,
        },
{
    if buf.len() < 4 {
        return Ok(None);
    }
    let len: u128 = match get_le(buf, 0, 4) {
        Some(len) => len,
        None => {
            return Ok(None);
        },
    };
    proof {
        crate::endian::lemma_le_value_bound(buf@.subrange(0, 4));
        lemma_radix_pow_values();
    }
    if len > 0x100_0000 {
        return Err(FrameError::TooLong);
    }
    let len: usize = len as usize;
    if buf.len() - 4 < len {
        return Ok(None);
    }
    let total: usize = buf.len();
    let mut body: Vec<u8> = Vec::new();
    let mut i: usize = 0;
    while i < len
        invariant
            i <= len,
            4 + len <= buf@.len() == total,
            body@ == buf@.subrange(4, 4 + i),
        decreases len - i,
    {
        body.push(buf[4 + i]);
        assert(buf@.subrange(4, 4 + i + 1) =~= buf@.subrange(4, 4 + i).push(buf@[4 + i]));
        i = i + 1;
    }
    Ok(Some((body, 4 + len)))
}

/// A frame that was encoded is decoded again, whatever follows it in the
/// buffer, and exactly its own bytes are consumed.
pub proof fn lemma_frame_round_trip(body: Seq<u8>, rest: Seq<u8>)
    requires
        body.len() <= MAX_FRAME_LEN,
    ensures
        parse_frame(frame_bytes(body) + rest) == Ok::<Option<(Seq<u8>, nat)>, FrameError>(
            Some((body, 4 + body.len())),
        ),
{
    let buf = frame_bytes(body) + rest;
    lemma_le_bytes_len(body.len(), 4);
    lemma_radix_pow_values();
    lemma_le_value_of_bytes(body.len(), 4);
    assert(buf.subrange(0, 4) =~= le_bytes(body.len(), 4));
    assert(buf.subrange(4, 4 + body.len() as int) =~= body);
}

/// A buffer that holds only part of a frame asks for more, and a length
/// field over the limit is refused whatever follows it.
pub proof fn lemma_frame_prefix(body: Seq<u8>, cut: int)
    requires
        0 <= cut < 4 + body.len(),
    ensures
        body.len() <= MAX_FRAME_LEN ==> parse_frame(frame_bytes(body).subrange(0, cut)) == Ok::<
            Option<(Seq<u8>, nat)>,
            FrameError,
        >(None),
        body.len() > MAX_FRAME_LEN && body.len() < 0x1_0000_0000 && cut >= 4 ==> parse_frame(
            frame_bytes(body).subrange(0, cut),
        ) == Err::<Option<(Seq<u8>, nat)>, FrameError>(FrameError::TooLong),
{
    let buf = frame_bytes(body).subrange(0, cut);
    lemma_le_bytes_len(body.len(), 4);
    lemma_radix_pow_values();
    if body.len() < 0x1_0000_0000 {
        lemma_le_value_of_bytes(body.len(), 4);
    }
    if cut >= 4 {
        assert(buf.subrange(0, 4) =~= le_bytes(body.len(), 4));
    }
}

} // verus!
