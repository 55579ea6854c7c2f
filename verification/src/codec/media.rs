//! Encoded pictures and encoded blocks of audio.

use vstd::prelude::*;
use crate::codec::primitives::{
    got, lemma_concat_assoc, lemma_parse_bytes, lemma_parse_opt_bytes, lemma_parse_u128,
    lemma_parse_u16, parse_bytes, parse_opt_bytes, parse_u128, parse_u16, read_bytes,
    read_opt_bytes, read_u128, read_u16, reads, ser_bytes, ser_opt_bytes, ser_u128, ser_u16,
    write_bytes, write_opt_bytes, write_u128, write_u16,
};
use crate::message::{
    EndPointAudioFrame, EndPointAudioFrameView, EndPointVideoFrame, EndPointVideoFrameView,
};

verus! {

/// The binary form of an encoded picture: its fields in order.
#[verifier::opaque]
pub open spec fn ser_video_frame(value: EndPointVideoFrameView) -> Seq<u8> {
    ser_opt_bytes(value.sps)
        + ser_opt_bytes(value.pps)
        + ser_bytes(value.buffer)
}

/// What `bytes` starts with, read as an encoded picture, and what follows it.
#[verifier::opaque]
pub open spec fn parse_video_frame(bytes: Seq<u8>) -> Option<(EndPointVideoFrameView, Seq<u8>)> {
    let sps = parse_opt_bytes(bytes);
    let pps = parse_opt_bytes(sps.unwrap().1);
    let buffer = parse_bytes(pps.unwrap().1);
    if sps is Some && pps is Some && buffer is Some {
        Some(
            (
                EndPointVideoFrameView {
                    sps: sps.unwrap().0,
                    pps: pps.unwrap().0,
                    buffer: buffer.unwrap().0,
                },
                buffer.unwrap().1,
            ),
        )
    } else {
        None
    }
}

/// Parsing undoes serializing, whatever follows.
pub proof fn lemma_parse_video_frame(value: EndPointVideoFrameView, rest: Seq<u8>)
    requires
        value.fits(),
    ensures
        parse_video_frame(ser_video_frame(value) + rest) == Some((value, rest)),
{
    reveal(ser_video_frame);
    reveal(parse_video_frame);
    let after_pps = ser_bytes(value.buffer) + rest;
    let after_sps = ser_opt_bytes(value.pps) + after_pps;
    let upto_sps = ser_opt_bytes(value.sps);
    let upto_pps = upto_sps + ser_opt_bytes(value.pps);
    lemma_concat_assoc(upto_pps, ser_bytes(value.buffer), rest);
    lemma_concat_assoc(upto_sps, ser_opt_bytes(value.pps), after_pps);
    lemma_parse_opt_bytes(value.sps, after_sps);
    lemma_parse_opt_bytes(value.pps, after_pps);
    lemma_parse_bytes(value.buffer, rest);
}

/// Appends the binary form of `value` to `out`.
pub fn write_video_frame(out: &mut Vec<u8>, value: &EndPointVideoFrame)
    ensures
        final(out)@ == old(out)@ + ser_video_frame(value@),
        value@.fits(),
{
    proof {
        reveal(ser_video_frame);
    }
    write_opt_bytes(out, &value.sps);
    write_opt_bytes(out, &value.pps);
    write_bytes(out, value.buffer.as_slice());
    assert(out@ =~= old(out)@ + ser_video_frame(value@));
}

/// Reads an encoded picture at `pos`. Returns it with the position behind it.
pub fn read_video_frame(bytes: &[u8], pos: usize) -> (r: Option<(EndPointVideoFrame, usize)>)
    ensures
        reads(bytes@, pos as int, parse_video_frame(bytes@.skip(pos as int)), got(r)),
{
    proof {
        reveal(parse_video_frame);
    }
    let (sps, pos0) = read_opt_bytes(bytes, pos)?;
    let (pps, pos1) = read_opt_bytes(bytes, pos0)?;
    let (buffer, pos2) = read_bytes(bytes, pos1)?;
    Some((EndPointVideoFrame { sps, pps, buffer }, pos2))
}

/// The binary form of an encoded block of audio: its fields in order.
#[verifier::opaque]
pub open spec fn ser_audio_frame(value: EndPointAudioFrameView) -> Seq<u8> {
    ser_bytes(value.buffer)
        + ser_u16(value.frame_size_per_channel)
        + ser_u128(value.elapsed)
}

/// What `bytes` starts with, read as an encoded block of audio, and what follows it.
#[verifier::opaque]
pub open spec fn parse_audio_frame(bytes: Seq<u8>) -> Option<(EndPointAudioFrameView, Seq<u8>)> {
    let buffer = parse_bytes(bytes);
    let frame_size_per_channel = parse_u16(buffer.unwrap().1);
    let elapsed = parse_u128(frame_size_per_channel.unwrap().1);
    if buffer is Some && frame_size_per_channel is Some && elapsed is Some {
        Some(
            (
                EndPointAudioFrameView {
                    buffer: buffer.unwrap().0,
                    frame_size_per_channel: frame_size_per_channel.unwrap().0,
                    elapsed: elapsed.unwrap().0,
                },
                elapsed.unwrap().1,
            ),
        )
    } else {
        None
    }
}

/// Parsing undoes serializing, whatever follows.
pub proof fn lemma_parse_audio_frame(value: EndPointAudioFrameView, rest: Seq<u8>)
    requires
        value.fits(),
    ensures
        parse_audio_frame(ser_audio_frame(value) + rest) == Some((value, rest)),
{
    reveal(ser_audio_frame);
    reveal(parse_audio_frame);
    let after_frame_size_per_channel = ser_u128(value.elapsed) + rest;
    let after_buffer = ser_u16(value.frame_size_per_channel) + after_frame_size_per_channel;
    let upto_buffer = ser_bytes(value.buffer);
    let upto_frame_size_per_channel = upto_buffer + ser_u16(value.frame_size_per_channel);
    lemma_concat_assoc(upto_frame_size_per_channel, ser_u128(value.elapsed), rest);
    lemma_concat_assoc(
        upto_buffer,
        ser_u16(value.frame_size_per_channel),
        after_frame_size_per_channel,
    );
    lemma_parse_bytes(value.buffer, after_buffer);
    lemma_parse_u16(value.frame_size_per_channel, after_frame_size_per_channel);
    lemma_parse_u128(value.elapsed, rest);
}

/// Appends the binary form of `value` to `out`.
pub fn write_audio_frame(out: &mut Vec<u8>, value: &EndPointAudioFrame)
    ensures
        final(out)@ == old(out)@ + ser_audio_frame(value@),
        value@.fits(),
{
    proof {
        reveal(ser_audio_frame);
    }
    write_bytes(out, value.buffer.as_slice());
    write_u16(out, value.frame_size_per_channel);
    write_u128(out, value.elapsed);
    assert(out@ =~= old(out)@ + ser_audio_frame(value@));
}

/// Reads an encoded block of audio at `pos`. Returns it with the position behind it.
pub fn read_audio_frame(bytes: &[u8], pos: usize) -> (r: Option<(EndPointAudioFrame, usize)>)
    ensures
        reads(bytes@, pos as int, parse_audio_frame(bytes@.skip(pos as int)), got(r)),
{
    proof {
        reveal(parse_audio_frame);
    }
    let (buffer, pos0) = read_bytes(bytes, pos)?;
    let (frame_size_per_channel, pos1) = read_u16(bytes, pos0)?;
    let (elapsed, pos2) = read_u128(bytes, pos1)?;
    Some((EndPointAudioFrame { buffer, frame_size_per_channel, elapsed }, pos2))
}

} // verus!
