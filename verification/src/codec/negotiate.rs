//! The messages of the negotiation: what the active peer can handle, what the
//! passive peer chose, the displays on offer and the one that was picked.

use vstd::prelude::*;
use crate::codec::primitives::{
    got, lemma_concat_assoc, lemma_parse_bool, lemma_parse_bytes, lemma_parse_string,
    lemma_parse_u16, lemma_parse_u32, lemma_parse_u8, lemma_parse_uint, parse_bool, parse_bytes,
    parse_string, parse_u16, parse_u32, parse_u8, parse_uint, read_bool, read_bytes, read_string,
    read_u16, read_u32, read_u8, read_uint, reads, ser_bool, ser_bytes, ser_string, ser_u16,
    ser_u32, ser_u8, write_bool, write_bytes, write_string, write_u16, write_u32, write_u8,
};
use crate::endian::{le_bytes, lemma_radix_pow_values, put_le};
use crate::message::{
    monitor_views, AudioSampleFormat, AudioSampleRate,
    EndPointNegotiateFinishedRequest, EndPointNegotiateFinishedRequestView,
    EndPointNegotiateSelectMonitorResponse, EndPointNegotiateSelectMonitorResponseView,
    EndPointNegotiateVisitDesktopParamsRequest, EndPointNegotiateVisitDesktopParamsRequestView,
    EndPointNegotiateVisitDesktopParamsResponse, EndPointNegotiateVisitDesktopParamsResponseView,
    MonitorDescription, MonitorDescriptionView, VideoCodec,
};

verus! {

/// The number that stands for a video codec.
pub open spec fn video_codec_code(value: VideoCodec) -> u32 {
    match value {
        VideoCodec::H264 => 0,
        VideoCodec::HEVC => 1,
        VideoCodec::VP8 => 2,
        VideoCodec::VP9 => 3,
    }
}

/// The inverse of `video_codec_code`; `None` for a number that stands for nothing.
pub open spec fn video_codec_of_code(code: u32) -> Option<VideoCodec> {
    if code >= 4 {
        None
    } else {
        Some(video_codec_at(code))
    }
}

/// The variant with a given number, for numbers below 4.
pub open spec fn video_codec_at(code: u32) -> VideoCodec {
    if code == 0 {
        VideoCodec::H264
    } else if code == 1 {
        VideoCodec::HEVC
    } else if code == 2 {
        VideoCodec::VP8
    } else {
        VideoCodec::VP9
    }
}

impl VideoCodec {
    /// The number that stands for this value on the wire.
    pub fn code(&self) -> (code: u32)
        ensures
            code == video_codec_code(*self),
    {
        match self {
            VideoCodec::H264 => 0,
            VideoCodec::HEVC => 1,
            VideoCodec::VP8 => 2,
            VideoCodec::VP9 => 3,
        }
    }

    /// The value that `code` stands for, if any.
    pub fn from_code(code: u32) -> (value: Option<Self>)
        ensures
            value == video_codec_of_code(code),
    {
        match code {
            0 => Some(VideoCodec::H264),
            1 => Some(VideoCodec::HEVC),
            2 => Some(VideoCodec::VP8),
            3 => Some(VideoCodec::VP9),
            _ => None,
        }
    }
}

/// The binary form of a video codec: its number as a `u32`.
pub open spec fn ser_video_codec(value: VideoCodec) -> Seq<u8> {
    ser_u32(video_codec_code(value))
}

/// What `bytes` starts with, read as a video codec, and what follows it.
pub open spec fn parse_video_codec(bytes: Seq<u8>) -> Option<(VideoCodec, Seq<u8>)> {
    match parse_u32(bytes) {
        Some((code, rest)) => match video_codec_of_code(code) {
            Some(value) => Some((value, rest)),
            None => None,
        },
        None => None,
    }
}

/// Parsing undoes serializing, whatever follows.
pub proof fn lemma_parse_video_codec(value: VideoCodec, rest: Seq<u8>)
    ensures
        parse_video_codec(ser_video_codec(value) + rest) == Some((value, rest)),
{
    lemma_parse_u32(video_codec_code(value), rest);
}

/// Appends the binary form of `value` to `out`.
pub fn write_video_codec(out: &mut Vec<u8>, value: &VideoCodec)
    ensures
        final(out)@ == old(out)@ + ser_video_codec(*value),
{
    write_u32(out, value.code());
}

/// Reads a video codec at `pos`. Returns it with the position behind it.
pub fn read_video_codec(bytes: &[u8], pos: usize) -> (r: Option<(VideoCodec, usize)>)
    ensures
        reads(bytes@, pos as int, parse_video_codec(bytes@.skip(pos as int)), got(r)),
{
    let (code, end) = read_u32(bytes, pos)?;
    let value: VideoCodec = VideoCodec::from_code(code)?;
    Some((value, end))
}

/// The number that stands for an audio sample rate.
pub open spec fn audio_sample_rate_code(value: AudioSampleRate) -> u32 {
    match value {
        AudioSampleRate::HZ8000 => 0,
        AudioSampleRate::HZ12000 => 1,
        AudioSampleRate::HZ16000 => 2,
        AudioSampleRate::HZ24000 => 3,
        AudioSampleRate::HZ48000 => 4,
    }
}

/// The inverse of `audio_sample_rate_code`; `None` for a number that stands for nothing.
pub open spec fn audio_sample_rate_of_code(code: u32) -> Option<AudioSampleRate> {
    if code >= 5 {
        None
    } else {
        Some(audio_sample_rate_at(code))
    }
}

/// The variant with a given number, for numbers below 5.
pub open spec fn audio_sample_rate_at(code: u32) -> AudioSampleRate {
    if code == 0 {
        AudioSampleRate::HZ8000
    } else if code == 1 {
        AudioSampleRate::HZ12000
    } else if code == 2 {
        AudioSampleRate::HZ16000
    } else if code == 3 {
        AudioSampleRate::HZ24000
    } else {
        AudioSampleRate::HZ48000
    }
}

impl AudioSampleRate {
    /// The number that stands for this value on the wire.
    pub fn code(&self) -> (code: u32)
        ensures
            code == audio_sample_rate_code(*self),
    {
        match self {
            AudioSampleRate::HZ8000 => 0,
            AudioSampleRate::HZ12000 => 1,
            AudioSampleRate::HZ16000 => 2,
            AudioSampleRate::HZ24000 => 3,
            AudioSampleRate::HZ48000 => 4,
        }
    }

    /// The value that `code` stands for, if any.
    pub fn from_code(code: u32) -> (value: Option<Self>)
        ensures
            value == audio_sample_rate_of_code(code),
    {
        match code {
            0 => Some(AudioSampleRate::HZ8000),
            1 => Some(AudioSampleRate::HZ12000),
            2 => Some(AudioSampleRate::HZ16000),
            3 => Some(AudioSampleRate::HZ24000),
            4 => Some(AudioSampleRate::HZ48000),
            _ => None,
        }
    }
}

/// The binary form of an audio sample rate: its number as a `u32`.
pub open spec fn ser_audio_sample_rate(value: AudioSampleRate) -> Seq<u8> {
    ser_u32(audio_sample_rate_code(value))
}

/// What `bytes` starts with, read as an audio sample rate, and what follows it.
pub open spec fn parse_audio_sample_rate(bytes: Seq<u8>) -> Option<(AudioSampleRate, Seq<u8>)> {
    match parse_u32(bytes) {
        Some((code, rest)) => match audio_sample_rate_of_code(code) {
            Some(value) => Some((value, rest)),
            None => None,
        },
        None => None,
    }
}

/// Parsing undoes serializing, whatever follows.
pub proof fn lemma_parse_audio_sample_rate(value: AudioSampleRate, rest: Seq<u8>)
    ensures
        parse_audio_sample_rate(ser_audio_sample_rate(value) + rest) == Some((value, rest)),
{
    lemma_parse_u32(audio_sample_rate_code(value), rest);
}

/// Appends the binary form of `value` to `out`.
pub fn write_audio_sample_rate(out: &mut Vec<u8>, value: &AudioSampleRate)
    ensures
        final(out)@ == old(out)@ + ser_audio_sample_rate(*value),
{
    write_u32(out, value.code());
}

/// Reads an audio sample rate at `pos`. Returns it with the position behind it.
pub fn read_audio_sample_rate(bytes: &[u8], pos: usize) -> (r: Option<(AudioSampleRate, usize)>)
    ensures
        reads(bytes@, pos as int, parse_audio_sample_rate(bytes@.skip(pos as int)), got(r)),
{
    let (code, end) = read_u32(bytes, pos)?;
    let value: AudioSampleRate = AudioSampleRate::from_code(code)?;
    Some((value, end))
}

/// The number that stands for an audio sample format.
pub open spec fn audio_sample_format_code(value: AudioSampleFormat) -> u32 {
    match value {
        AudioSampleFormat::I16 => 0,
        AudioSampleFormat::U16 => 1,
        AudioSampleFormat::F32 => 2,
    }
}

/// The inverse of `audio_sample_format_code`; `None` for a number that stands for nothing.
pub open spec fn audio_sample_format_of_code(code: u32) -> Option<AudioSampleFormat> {
    if code >= 3 {
        None
    } else {
        Some(audio_sample_format_at(code))
    }
}

/// The variant with a given number, for numbers below 3.
pub open spec fn audio_sample_format_at(code: u32) -> AudioSampleFormat {
    if code == 0 {
        AudioSampleFormat::I16
    } else if code == 1 {
        AudioSampleFormat::U16
    } else {
        AudioSampleFormat::F32
    }
}

impl AudioSampleFormat {
    /// The number that stands for this value on the wire.
    pub fn code(&self) -> (code: u32)
        ensures
            code == audio_sample_format_code(*self),
    {
        match self {
            AudioSampleFormat::I16 => 0,
            AudioSampleFormat::U16 => 1,
            AudioSampleFormat::F32 => 2,
        }
    }

    /// The value that `code` stands for, if any.
    pub fn from_code(code: u32) -> (value: Option<Self>)
        ensures
            value == audio_sample_format_of_code(code),
    {
        match code {
            0 => Some(AudioSampleFormat::I16),
            1 => Some(AudioSampleFormat::U16),
            2 => Some(AudioSampleFormat::F32),
            _ => None,
        }
    }
}

/// The binary form of an audio sample format: its number as a `u32`.
pub open spec fn ser_audio_sample_format(value: AudioSampleFormat) -> Seq<u8> {
    ser_u32(audio_sample_format_code(value))
}

/// What `bytes` starts with, read as an audio sample format, and what follows it.
pub open spec fn parse_audio_sample_format(bytes: Seq<u8>) -> Option<(AudioSampleFormat, Seq<u8>)> {
    match parse_u32(bytes) {
        Some((code, rest)) => match audio_sample_format_of_code(code) {
            Some(value) => Some((value, rest)),
            None => None,
        },
        None => None,
    }
}

/// Parsing undoes serializing, whatever follows.
pub proof fn lemma_parse_audio_sample_format(value: AudioSampleFormat, rest: Seq<u8>)
    ensures
        parse_audio_sample_format(ser_audio_sample_format(value) + rest) == Some((value, rest)),
{
    lemma_parse_u32(audio_sample_format_code(value), rest);
}

/// Appends the binary form of `value` to `out`.
pub fn write_audio_sample_format(out: &mut Vec<u8>, value: &AudioSampleFormat)
    ensures
        final(out)@ == old(out)@ + ser_audio_sample_format(*value),
{
    write_u32(out, value.code());
}

/// Reads an audio sample format at `pos`. Returns it with the position behind it.
pub fn read_audio_sample_format(bytes: &[u8], pos: usize) -> (r: Option<(AudioSampleFormat, usize)>)
    ensures
        reads(bytes@, pos as int, parse_audio_sample_format(bytes@.skip(pos as int)), got(r)),
{
    let (code, end) = read_u32(bytes, pos)?;
    let value: AudioSampleFormat = AudioSampleFormat::from_code(code)?;
    Some((value, end))
}

/// Video codecs, one after the other.
pub open spec fn ser_video_codec_items(items: Seq<VideoCodec>) -> Seq<u8>
    decreases items.len(),
{
    if items.len() == 0 {
        Seq::empty()
    } else {
        ser_video_codec(items[0]) + ser_video_codec_items(items.drop_first())
    }
}

/// The first `count` video codecs at the front of `bytes`.
pub open spec fn parse_video_codec_items(
    bytes: Seq<u8>,
    count: nat,
) -> Option<(Seq<VideoCodec>, Seq<u8>)>
    decreases count,
{
    if count == 0 {
        Some((Seq::empty(), bytes))
    } else {
        match parse_video_codec(bytes) {
            Some((first, rest)) => match parse_video_codec_items(rest, (count - 1) as nat) {
                Some((others, rest2)) => Some((seq![first] + others, rest2)),
                None => None,
            },
            None => None,
        }
    }
}

/// A list of video codecs: their number as a `u64`, then each in turn.
pub open spec fn ser_video_codec_list(items: Seq<VideoCodec>) -> Seq<u8> {
    le_bytes(items.len(), 8) + ser_video_codec_items(items)
}

/// The list of video codecs that `bytes` starts with, and what follows it.
pub open spec fn parse_video_codec_list(bytes: Seq<u8>) -> Option<(Seq<VideoCodec>, Seq<u8>)> {
    match parse_uint(bytes, 8) {
        Some((count, rest)) => parse_video_codec_items(rest, count),
        None => None,
    }
}

/// Parsing as many video codecs as were serialized gives them back, whatever follows.
pub proof fn lemma_parse_video_codec_items(items: Seq<VideoCodec>, rest: Seq<u8>)
    ensures
        parse_video_codec_items(ser_video_codec_items(items) + rest, items.len())
            == Some((items, rest)),
    decreases items.len(),
{
    if items.len() == 0 {
        assert(ser_video_codec_items(items) + rest =~= rest);
        assert(items =~= Seq::empty());
    } else {
        let first = items[0];
        let tail = items.drop_first();
        lemma_parse_video_codec(first, ser_video_codec_items(tail) + rest);
        lemma_parse_video_codec_items(tail, rest);
        lemma_concat_assoc(ser_video_codec(first), ser_video_codec_items(tail), rest);
        assert(seq![first] + tail =~= items);
    }
}

/// Parsing undoes serializing, whatever follows.
pub proof fn lemma_parse_video_codec_list(items: Seq<VideoCodec>, rest: Seq<u8>)
    requires
        items.len() <= u64::MAX,
    ensures
        parse_video_codec_list(ser_video_codec_list(items) + rest) == Some((items, rest)),
{
    lemma_radix_pow_values();
    lemma_parse_uint(items.len(), 8, ser_video_codec_items(items) + rest);
    lemma_parse_video_codec_items(items, rest);
    lemma_concat_assoc(le_bytes(items.len(), 8), ser_video_codec_items(items), rest);
}

/// Writing one more at the end adds its bytes at the end.
pub proof fn lemma_ser_video_codec_items_push(items: Seq<VideoCodec>, last: VideoCodec)
    ensures
        ser_video_codec_items(items.push(last)) == ser_video_codec_items(items)
            + ser_video_codec(last),
    decreases items.len(),
{
    if items.len() == 0 {
        assert(items.push(last).drop_first() =~= Seq::empty());
        assert(
            ser_video_codec_items(items.push(last))
                =~= ser_video_codec(last) + ser_video_codec_items(Seq::empty())
        );
    } else {
        lemma_ser_video_codec_items_push(items.drop_first(), last);
        assert(items.push(last).drop_first() =~= items.drop_first().push(last));
    }
}

/// Appends the binary form of the list to `out`.
pub fn write_video_codec_list(out: &mut Vec<u8>, items: &Vec<VideoCodec>)
    ensures
        final(out)@ == old(out)@ + ser_video_codec_list(items@),
        items@.len() <= u64::MAX,
{
    put_le(out, items.len() as u128, 8);
    let ghost start = out@;
    let mut i: usize = 0;
    while i < items.len()
        invariant
            i <= items@.len(),
            out@ == start + ser_video_codec_items(items@.take(i as int)),
        decreases items@.len() - i,
    {
        write_video_codec(out, &items[i]);
        proof {
            let done = items@.take(i as int);
            lemma_ser_video_codec_items_push(done, items@[i as int]);
            assert(items@.take(i + 1) =~= done.push(items@[i as int]));
            assert(out@ =~= start + ser_video_codec_items(items@.take(i + 1)));
        }
        i = i + 1;
    }
    proof {
        assert(items@.take(items@.len() as int) =~= items@);
        assert(out@ =~= old(out)@ + ser_video_codec_list(items@));
    }
}

/// What is still to come, with what has been read put in front of it.
pub open spec fn after_video_codec_list(
    done: Seq<VideoCodec>,
    remaining: Option<(Seq<VideoCodec>, Seq<u8>)>,
) -> Option<(Seq<VideoCodec>, Seq<u8>)> {
    match remaining {
        Some((more, rest)) => Some((done + more, rest)),
        None => None,
    }
}

/// Reads a list of video codecs at `pos`. Returns it with the position behind it.
pub fn read_video_codec_list(bytes: &[u8], pos: usize) -> (r: Option<(Vec<VideoCodec>, usize)>)
    ensures
        reads(bytes@, pos as int, parse_video_codec_list(bytes@.skip(pos as int)), got(r)),
{
    let (count, start) = read_uint(bytes, pos, 8)?;
    let mut items: Vec<VideoCodec> = Vec::new();
    let mut at: usize = start;
    let mut i: u128 = 0;
    assert(
        after_video_codec_list(items@, parse_video_codec_items(bytes@.skip(at as int), count as nat)
    )
        == parse_video_codec_items(bytes@.skip(start as int), count as nat)) by {
        let whole = parse_video_codec_items(bytes@.skip(start as int), count as nat);
        if whole is Some {
            assert(items@ + whole.unwrap().0 =~= whole.unwrap().0);
        }
    }
    while i < count
        invariant
            i <= count,
            pos <= start <= at <= bytes@.len(),
            parse_video_codec_list(bytes@.skip(pos as int)) == parse_video_codec_items(
                bytes@.skip(start as int),
                count as nat,
            ),
            after_video_codec_list(
                items@,
                parse_video_codec_items(bytes@.skip(at as int), (count - i) as nat),
            )
                == parse_video_codec_items(bytes@.skip(start as int), count as nat),
        decreases count - i,
    {
        let ghost done = items@;
        proof {
            let here = bytes@.skip(at as int);
            assert(
                parse_video_codec(here) is None ==>
                    parse_video_codec_items(here, (count - i) as nat) is None
            );
        }
        let (item, next) = read_video_codec(bytes, at)?;
        items.push(item);
        proof {
            let remaining =
                parse_video_codec_items(bytes@.skip(next as int), (count - i - 1) as nat);
            assert(items@ =~= done.push(item@));
            if remaining is Some {
                let more = remaining.unwrap().0;
                assert(done + (seq![item@] + more) =~= done.push(item@) + more);
            }
        }
        at = next;
        i = i + 1;
    }
    proof {
        assert(items@ + Seq::empty() =~= items@);
    }
    Some((items, at))
}

/// Audio sample formats, one after the other.
pub open spec fn ser_audio_sample_format_items(items: Seq<AudioSampleFormat>) -> Seq<u8>
    decreases items.len(),
{
    if items.len() == 0 {
        Seq::empty()
    } else {
        ser_audio_sample_format(items[0]) + ser_audio_sample_format_items(items.drop_first())
    }
}

/// The first `count` audio sample formats at the front of `bytes`.
pub open spec fn parse_audio_sample_format_items(
    bytes: Seq<u8>,
    count: nat,
) -> Option<(Seq<AudioSampleFormat>, Seq<u8>)>
    decreases count,
{
    if count == 0 {
        Some((Seq::empty(), bytes))
    } else {
        match parse_audio_sample_format(bytes) {
            Some((first, rest)) => match parse_audio_sample_format_items(rest, (count - 1) as nat) {
                Some((others, rest2)) => Some((seq![first] + others, rest2)),
                None => None,
            },
            None => None,
        }
    }
}

/// A list of audio sample formats: their number as a `u64`, then each in turn.
pub open spec fn ser_audio_sample_format_list(items: Seq<AudioSampleFormat>) -> Seq<u8> {
    le_bytes(items.len(), 8) + ser_audio_sample_format_items(items)
}

/// The list of audio sample formats that `bytes` starts with, and what follows it.
pub open spec fn parse_audio_sample_format_list(
    bytes: Seq<u8>,
) -> Option<(Seq<AudioSampleFormat>, Seq<u8>)> {
    match parse_uint(bytes, 8) {
        Some((count, rest)) => parse_audio_sample_format_items(rest, count),
        None => None,
    }
}

/// Parsing as many audio sample formats as were serialized gives them back, whatever follows.
pub proof fn lemma_parse_audio_sample_format_items(items: Seq<AudioSampleFormat>, rest: Seq<u8>)
    ensures
        parse_audio_sample_format_items(ser_audio_sample_format_items(items) + rest, items.len())
            == Some((items, rest)),
    decreases items.len(),
{
    if items.len() == 0 {
        assert(ser_audio_sample_format_items(items) + rest =~= rest);
        assert(items =~= Seq::empty());
    } else {
        let first = items[0];
        let tail = items.drop_first();
        lemma_parse_audio_sample_format(first, ser_audio_sample_format_items(tail) + rest);
        lemma_parse_audio_sample_format_items(tail, rest);
        lemma_concat_assoc(
            ser_audio_sample_format(first),
            ser_audio_sample_format_items(tail),
            rest,
        );
        assert(seq![first] + tail =~= items);
    }
}

/// Parsing undoes serializing, whatever follows.
pub proof fn lemma_parse_audio_sample_format_list(items: Seq<AudioSampleFormat>, rest: Seq<u8>)
    requires
        items.len() <= u64::MAX,
    ensures
        parse_audio_sample_format_list(ser_audio_sample_format_list(items) + rest)
            == Some((items, rest)),
{
    lemma_radix_pow_values();
    lemma_parse_uint(items.len(), 8, ser_audio_sample_format_items(items) + rest);
    lemma_parse_audio_sample_format_items(items, rest);
    lemma_concat_assoc(le_bytes(items.len(), 8), ser_audio_sample_format_items(items), rest);
}

/// Writing one more at the end adds its bytes at the end.
pub proof fn lemma_ser_audio_sample_format_items_push(
    items: Seq<AudioSampleFormat>,
    last: AudioSampleFormat,
)
    ensures
        ser_audio_sample_format_items(items.push(last)) == ser_audio_sample_format_items(items)
            + ser_audio_sample_format(last),
    decreases items.len(),
{
    if items.len() == 0 {
        assert(items.push(last).drop_first() =~= Seq::empty());
        assert(
            ser_audio_sample_format_items(items.push(last))
                =~= ser_audio_sample_format(last) + ser_audio_sample_format_items(Seq::empty())
        );
    } else {
        lemma_ser_audio_sample_format_items_push(items.drop_first(), last);
        assert(items.push(last).drop_first() =~= items.drop_first().push(last));
    }
}

/// Appends the binary form of the list to `out`.
pub fn write_audio_sample_format_list(out: &mut Vec<u8>, items: &Vec<AudioSampleFormat>)
    ensures
        final(out)@ == old(out)@ + ser_audio_sample_format_list(items@),
        items@.len() <= u64::MAX,
{
    put_le(out, items.len() as u128, 8);
    let ghost start = out@;
    let mut i: usize = 0;
    while i < items.len()
        invariant
            i <= items@.len(),
            out@ == start + ser_audio_sample_format_items(items@.take(i as int)),
        decreases items@.len() - i,
    {
        write_audio_sample_format(out, &items[i]);
        proof {
            let done = items@.take(i as int);
            lemma_ser_audio_sample_format_items_push(done, items@[i as int]);
            assert(items@.take(i + 1) =~= done.push(items@[i as int]));
            assert(out@ =~= start + ser_audio_sample_format_items(items@.take(i + 1)));
        }
        i = i + 1;
    }
    proof {
        assert(items@.take(items@.len() as int) =~= items@);
        assert(out@ =~= old(out)@ + ser_audio_sample_format_list(items@));
    }
}

/// What is still to come, with what has been read put in front of it.
pub open spec fn after_audio_sample_format_list(
    done: Seq<AudioSampleFormat>,
    remaining: Option<(Seq<AudioSampleFormat>, Seq<u8>)>,
) -> Option<(Seq<AudioSampleFormat>, Seq<u8>)> {
    match remaining {
        Some((more, rest)) => Some((done + more, rest)),
        None => None,
    }
}

/// Reads a list of audio sample formats at `pos`. Returns it with the position behind it.
pub fn read_audio_sample_format_list(
    bytes: &[u8],
    pos: usize,
) -> (r: Option<(Vec<AudioSampleFormat>, usize)>)
    ensures
        reads(bytes@, pos as int, parse_audio_sample_format_list(bytes@.skip(pos as int)), got(r)),
{
    let (count, start) = read_uint(bytes, pos, 8)?;
    let mut items: Vec<AudioSampleFormat> = Vec::new();
    let mut at: usize = start;
    let mut i: u128 = 0;
    assert(
        after_audio_sample_format_list(
            items@,
            parse_audio_sample_format_items(bytes@.skip(at as int), count as nat,
        )
    )
        == parse_audio_sample_format_items(bytes@.skip(start as int), count as nat)) by {
        let whole = parse_audio_sample_format_items(bytes@.skip(start as int), count as nat);
        if whole is Some {
            assert(items@ + whole.unwrap().0 =~= whole.unwrap().0);
        }
    }
    while i < count
        invariant
            i <= count,
            pos <= start <= at <= bytes@.len(),
            parse_audio_sample_format_list(bytes@.skip(pos as int))
                == parse_audio_sample_format_items(
                bytes@.skip(start as int),
                count as nat,
            ),
            after_audio_sample_format_list(
                items@,
                parse_audio_sample_format_items(bytes@.skip(at as int), (count - i) as nat),
            )
                == parse_audio_sample_format_items(bytes@.skip(start as int), count as nat),
        decreases count - i,
    {
        let ghost done = items@;
        proof {
            let here = bytes@.skip(at as int);
            assert(
                parse_audio_sample_format(here) is None ==>
                    parse_audio_sample_format_items(here, (count - i) as nat) is None
            );
        }
        let (item, next) = read_audio_sample_format(bytes, at)?;
        items.push(item);
        proof {
            let remaining =
                parse_audio_sample_format_items(bytes@.skip(next as int), (count - i - 1) as nat);
            assert(items@ =~= done.push(item@));
            if remaining is Some {
                let more = remaining.unwrap().0;
                assert(done + (seq![item@] + more) =~= done.push(item@) + more);
            }
        }
        at = next;
        i = i + 1;
    }
    proof {
        assert(items@ + Seq::empty() =~= items@);
    }
    Some((items, at))
}

/// The binary form of an offer of parameters: its fields in order.
#[verifier::opaque]
pub open spec fn ser_params_request(
    value: EndPointNegotiateVisitDesktopParamsRequestView,
) -> Seq<u8> {
    ser_video_codec_list(value.video_codecs)
        + ser_audio_sample_rate(value.audio_max_sample_rate)
        + ser_audio_sample_format_list(value.audio_sample_formats)
        + ser_bool(value.audio_dual_channel)
}

/// What `bytes` starts with, read as an offer of parameters, and what follows it.
#[verifier::opaque]
pub open spec fn parse_params_request(
    bytes: Seq<u8>,
) -> Option<(EndPointNegotiateVisitDesktopParamsRequestView, Seq<u8>)> {
    let video_codecs = parse_video_codec_list(bytes);
    let audio_max_sample_rate = parse_audio_sample_rate(video_codecs.unwrap().1);
    let audio_sample_formats = parse_audio_sample_format_list(audio_max_sample_rate.unwrap().1);
    let audio_dual_channel = parse_bool(audio_sample_formats.unwrap().1);
    if video_codecs is Some
        && audio_max_sample_rate is Some
        && audio_sample_formats is Some
        && audio_dual_channel is Some
    {
        Some(
            (
                EndPointNegotiateVisitDesktopParamsRequestView {
                    video_codecs: video_codecs.unwrap().0,
                    audio_max_sample_rate: audio_max_sample_rate.unwrap().0,
                    audio_sample_formats: audio_sample_formats.unwrap().0,
                    audio_dual_channel: audio_dual_channel.unwrap().0,
                },
                audio_dual_channel.unwrap().1,
            ),
        )
    } else {
        None
    }
}

/// Parsing undoes serializing, whatever follows.
pub proof fn lemma_parse_params_request(
    value: EndPointNegotiateVisitDesktopParamsRequestView,
    rest: Seq<u8>,
)
    requires
        value.fits(),
    ensures
        parse_params_request(ser_params_request(value) + rest) == Some((value, rest)),
{
    reveal(ser_params_request);
    reveal(parse_params_request);
    let after_audio_sample_formats = ser_bool(value.audio_dual_channel) + rest;
    let after_audio_max_sample_rate = ser_audio_sample_format_list(value.audio_sample_formats)
        + after_audio_sample_formats;
    let after_video_codecs = ser_audio_sample_rate(value.audio_max_sample_rate)
        + after_audio_max_sample_rate;
    let upto_video_codecs = ser_video_codec_list(value.video_codecs);
    let upto_audio_max_sample_rate = upto_video_codecs
        + ser_audio_sample_rate(value.audio_max_sample_rate);
    let upto_audio_sample_formats = upto_audio_max_sample_rate
        + ser_audio_sample_format_list(value.audio_sample_formats);
    lemma_concat_assoc(upto_audio_sample_formats, ser_bool(value.audio_dual_channel), rest);
    lemma_concat_assoc(
        upto_audio_max_sample_rate,
        ser_audio_sample_format_list(value.audio_sample_formats),
        after_audio_sample_formats,
    );
    lemma_concat_assoc(
        upto_video_codecs,
        ser_audio_sample_rate(value.audio_max_sample_rate),
        after_audio_max_sample_rate,
    );
    lemma_parse_video_codec_list(value.video_codecs, after_video_codecs);
    lemma_parse_audio_sample_rate(value.audio_max_sample_rate, after_audio_max_sample_rate);
    lemma_parse_audio_sample_format_list(value.audio_sample_formats, after_audio_sample_formats);
    lemma_parse_bool(value.audio_dual_channel, rest);
}

/// Appends the binary form of `value` to `out`.
pub fn write_params_request(out: &mut Vec<u8>, value: &EndPointNegotiateVisitDesktopParamsRequest)
    ensures
        final(out)@ == old(out)@ + ser_params_request(value@),
        value@.fits(),
{
    proof {
        reveal(ser_params_request);
    }
    write_video_codec_list(out, &value.video_codecs);
    write_audio_sample_rate(out, &value.audio_max_sample_rate);
    write_audio_sample_format_list(out, &value.audio_sample_formats);
    write_bool(out, value.audio_dual_channel);
    assert(out@ =~= old(out)@ + ser_params_request(value@));
}

/// Reads an offer of parameters at `pos`. Returns it with the position behind it.
pub fn read_params_request(
    bytes: &[u8],
    pos: usize,
) -> (r: Option<(EndPointNegotiateVisitDesktopParamsRequest, usize)>)
    ensures
        reads(bytes@, pos as int, parse_params_request(bytes@.skip(pos as int)), got(r)),
{
    proof {
        reveal(parse_params_request);
    }
    let (video_codecs, pos0) = read_video_codec_list(bytes, pos)?;
    let (audio_max_sample_rate, pos1) = read_audio_sample_rate(bytes, pos0)?;
    let (audio_sample_formats, pos2) = read_audio_sample_format_list(bytes, pos1)?;
    let (audio_dual_channel, pos3) = read_bool(bytes, pos2)?;
    Some(
        (
            EndPointNegotiateVisitDesktopParamsRequest {
                video_codecs,
                audio_max_sample_rate,
                audio_sample_formats,
                audio_dual_channel,
            },
            pos3,
        )
    )
}

/// The binary form of an answer to an offer of parameters: its fields in order.
#[verifier::opaque]
pub open spec fn ser_params_response(
    value: EndPointNegotiateVisitDesktopParamsResponseView,
) -> Seq<u8> {
    ser_video_codec(value.video_codec)
        + ser_audio_sample_rate(value.audio_sample_rate)
        + ser_audio_sample_format(value.audio_sample_format)
        + ser_bool(value.audio_dual_channel)
        + ser_string(value.os_type)
        + ser_string(value.os_version)
}

/// What `bytes` starts with, read as an answer to an offer of parameters, and what follows it.
#[verifier::opaque]
pub open spec fn parse_params_response(
    bytes: Seq<u8>,
) -> Option<(EndPointNegotiateVisitDesktopParamsResponseView, Seq<u8>)> {
    let video_codec = parse_video_codec(bytes);
    let audio_sample_rate = parse_audio_sample_rate(video_codec.unwrap().1);
    let audio_sample_format = parse_audio_sample_format(audio_sample_rate.unwrap().1);
    let audio_dual_channel = parse_bool(audio_sample_format.unwrap().1);
    let os_type = parse_string(audio_dual_channel.unwrap().1);
    let os_version = parse_string(os_type.unwrap().1);
    if video_codec is Some
        && audio_sample_rate is Some
        && audio_sample_format is Some
        && audio_dual_channel is Some
        && os_type is Some
        && os_version is Some
    {
        Some(
            (
                EndPointNegotiateVisitDesktopParamsResponseView {
                    video_codec: video_codec.unwrap().0,
                    audio_sample_rate: audio_sample_rate.unwrap().0,
                    audio_sample_format: audio_sample_format.unwrap().0,
                    audio_dual_channel: audio_dual_channel.unwrap().0,
                    os_type: os_type.unwrap().0,
                    os_version: os_version.unwrap().0,
                },
                os_version.unwrap().1,
            ),
        )
    } else {
        None
    }
}

/// Parsing undoes serializing, whatever follows.
pub proof fn lemma_parse_params_response(
    value: EndPointNegotiateVisitDesktopParamsResponseView,
    rest: Seq<u8>,
)
    requires
        value.fits(),
    ensures
        parse_params_response(ser_params_response(value) + rest) == Some((value, rest)),
{
    reveal(ser_params_response);
    reveal(parse_params_response);
    let after_os_type = ser_string(value.os_version) + rest;
    let after_audio_dual_channel = ser_string(value.os_type) + after_os_type;
    let after_audio_sample_format = ser_bool(value.audio_dual_channel) + after_audio_dual_channel;
    let after_audio_sample_rate = ser_audio_sample_format(value.audio_sample_format)
        + after_audio_sample_format;
    let after_video_codec = ser_audio_sample_rate(value.audio_sample_rate)
        + after_audio_sample_rate;
    let upto_video_codec = ser_video_codec(value.video_codec);
    let upto_audio_sample_rate = upto_video_codec + ser_audio_sample_rate(value.audio_sample_rate);
    let upto_audio_sample_format = upto_audio_sample_rate
        + ser_audio_sample_format(value.audio_sample_format);
    let upto_audio_dual_channel = upto_audio_sample_format + ser_bool(value.audio_dual_channel);
    let upto_os_type = upto_audio_dual_channel + ser_string(value.os_type);
    lemma_concat_assoc(upto_os_type, ser_string(value.os_version), rest);
    lemma_concat_assoc(upto_audio_dual_channel, ser_string(value.os_type), after_os_type);
    lemma_concat_assoc(
        upto_audio_sample_format,
        ser_bool(value.audio_dual_channel),
        after_audio_dual_channel,
    );
    lemma_concat_assoc(
        upto_audio_sample_rate,
        ser_audio_sample_format(value.audio_sample_format),
        after_audio_sample_format,
    );
    lemma_concat_assoc(
        upto_video_codec,
        ser_audio_sample_rate(value.audio_sample_rate),
        after_audio_sample_rate,
    );
    lemma_parse_video_codec(value.video_codec, after_video_codec);
    lemma_parse_audio_sample_rate(value.audio_sample_rate, after_audio_sample_rate);
    lemma_parse_audio_sample_format(value.audio_sample_format, after_audio_sample_format);
    lemma_parse_bool(value.audio_dual_channel, after_audio_dual_channel);
    lemma_parse_string(value.os_type, after_os_type);
    lemma_parse_string(value.os_version, rest);
}

/// Appends the binary form of `value` to `out`.
pub fn write_params_response(out: &mut Vec<u8>, value: &EndPointNegotiateVisitDesktopParamsResponse)
    ensures
        final(out)@ == old(out)@ + ser_params_response(value@),
        value@.fits(),
{
    proof {
        reveal(ser_params_response);
    }
    write_video_codec(out, &value.video_codec);
    write_audio_sample_rate(out, &value.audio_sample_rate);
    write_audio_sample_format(out, &value.audio_sample_format);
    write_bool(out, value.audio_dual_channel);
    write_string(out, value.os_type.as_str());
    write_string(out, value.os_version.as_str());
    assert(out@ =~= old(out)@ + ser_params_response(value@));
}

/// Reads an answer to an offer of parameters at `pos`. Returns it with the position behind it.
pub fn read_params_response(
    bytes: &[u8],
    pos: usize,
) -> (r: Option<(EndPointNegotiateVisitDesktopParamsResponse, usize)>)
    ensures
        reads(bytes@, pos as int, parse_params_response(bytes@.skip(pos as int)), got(r)),
{
    proof {
        reveal(parse_params_response);
    }
    let (video_codec, pos0) = read_video_codec(bytes, pos)?;
    let (audio_sample_rate, pos1) = read_audio_sample_rate(bytes, pos0)?;
    let (audio_sample_format, pos2) = read_audio_sample_format(bytes, pos1)?;
    let (audio_dual_channel, pos3) = read_bool(bytes, pos2)?;
    let (os_type, pos4) = read_string(bytes, pos3)?;
    let (os_version, pos5) = read_string(bytes, pos4)?;
    Some(
        (
            EndPointNegotiateVisitDesktopParamsResponse {
                video_codec,
                audio_sample_rate,
                audio_sample_format,
                audio_dual_channel,
                os_type,
                os_version,
            },
            pos5,
        )
    )
}

/// The binary form of a display: its fields in order.
#[verifier::opaque]
pub open spec fn ser_monitor(value: MonitorDescriptionView) -> Seq<u8> {
    ser_string(value.id)
        + ser_string(value.name)
        + ser_u8(value.frame_rate)
        + ser_u16(value.width)
        + ser_u16(value.height)
        + ser_bool(value.is_primary)
        + ser_bytes(value.screen_shot)
}

/// What `bytes` starts with, read as a display, and what follows it.
#[verifier::opaque]
pub open spec fn parse_monitor(bytes: Seq<u8>) -> Option<(MonitorDescriptionView, Seq<u8>)> {
    let id = parse_string(bytes);
    let name = parse_string(id.unwrap().1);
    let frame_rate = parse_u8(name.unwrap().1);
    let width = parse_u16(frame_rate.unwrap().1);
    let height = parse_u16(width.unwrap().1);
    let is_primary = parse_bool(height.unwrap().1);
    let screen_shot = parse_bytes(is_primary.unwrap().1);
    if id is Some
        && name is Some
        && frame_rate is Some
        && width is Some
        && height is Some
        && is_primary is Some
        && screen_shot is Some
    {
        Some(
            (
                MonitorDescriptionView {
                    id: id.unwrap().0,
                    name: name.unwrap().0,
                    frame_rate: frame_rate.unwrap().0,
                    width: width.unwrap().0,
                    height: height.unwrap().0,
                    is_primary: is_primary.unwrap().0,
                    screen_shot: screen_shot.unwrap().0,
                },
                screen_shot.unwrap().1,
            ),
        )
    } else {
        None
    }
}

/// Parsing undoes serializing, whatever follows.
pub proof fn lemma_parse_monitor(value: MonitorDescriptionView, rest: Seq<u8>)
    requires
        value.fits(),
    ensures
        parse_monitor(ser_monitor(value) + rest) == Some((value, rest)),
{
    reveal(ser_monitor);
    reveal(parse_monitor);
    let after_is_primary = ser_bytes(value.screen_shot) + rest;
    let after_height = ser_bool(value.is_primary) + after_is_primary;
    let after_width = ser_u16(value.height) + after_height;
    let after_frame_rate = ser_u16(value.width) + after_width;
    let after_name = ser_u8(value.frame_rate) + after_frame_rate;
    let after_id = ser_string(value.name) + after_name;
    let upto_id = ser_string(value.id);
    let upto_name = upto_id + ser_string(value.name);
    let upto_frame_rate = upto_name + ser_u8(value.frame_rate);
    let upto_width = upto_frame_rate + ser_u16(value.width);
    let upto_height = upto_width + ser_u16(value.height);
    let upto_is_primary = upto_height + ser_bool(value.is_primary);
    lemma_concat_assoc(upto_is_primary, ser_bytes(value.screen_shot), rest);
    lemma_concat_assoc(upto_height, ser_bool(value.is_primary), after_is_primary);
    lemma_concat_assoc(upto_width, ser_u16(value.height), after_height);
    lemma_concat_assoc(upto_frame_rate, ser_u16(value.width), after_width);
    lemma_concat_assoc(upto_name, ser_u8(value.frame_rate), after_frame_rate);
    lemma_concat_assoc(upto_id, ser_string(value.name), after_name);
    lemma_parse_string(value.id, after_id);
    lemma_parse_string(value.name, after_name);
    lemma_parse_u8(value.frame_rate, after_frame_rate);
    lemma_parse_u16(value.width, after_width);
    lemma_parse_u16(value.height, after_height);
    lemma_parse_bool(value.is_primary, after_is_primary);
    lemma_parse_bytes(value.screen_shot, rest);
}

/// Appends the binary form of `value` to `out`.
pub fn write_monitor(out: &mut Vec<u8>, value: &MonitorDescription)
    ensures
        final(out)@ == old(out)@ + ser_monitor(value@),
        value@.fits(),
{
    proof {
        reveal(ser_monitor);
    }
    write_string(out, value.id.as_str());
    write_string(out, value.name.as_str());
    write_u8(out, value.frame_rate);
    write_u16(out, value.width);
    write_u16(out, value.height);
    write_bool(out, value.is_primary);
    write_bytes(out, value.screen_shot.as_slice());
    assert(out@ =~= old(out)@ + ser_monitor(value@));
}

/// Reads a display at `pos`. Returns it with the position behind it.
pub fn read_monitor(bytes: &[u8], pos: usize) -> (r: Option<(MonitorDescription, usize)>)
    ensures
        reads(bytes@, pos as int, parse_monitor(bytes@.skip(pos as int)), got(r)),
{
    proof {
        reveal(parse_monitor);
    }
    let (id, pos0) = read_string(bytes, pos)?;
    let (name, pos1) = read_string(bytes, pos0)?;
    let (frame_rate, pos2) = read_u8(bytes, pos1)?;
    let (width, pos3) = read_u16(bytes, pos2)?;
    let (height, pos4) = read_u16(bytes, pos3)?;
    let (is_primary, pos5) = read_bool(bytes, pos4)?;
    let (screen_shot, pos6) = read_bytes(bytes, pos5)?;
    Some(
        (MonitorDescription { id, name, frame_rate, width, height, is_primary, screen_shot }, pos6)
    )
}

/// Displays, one after the other.
pub open spec fn ser_monitor_items(items: Seq<MonitorDescriptionView>) -> Seq<u8>
    decreases items.len(),
{
    if items.len() == 0 {
        Seq::empty()
    } else {
        ser_monitor(items[0]) + ser_monitor_items(items.drop_first())
    }
}

/// The first `count` displays at the front of `bytes`.
pub open spec fn parse_monitor_items(
    bytes: Seq<u8>,
    count: nat,
) -> Option<(Seq<MonitorDescriptionView>, Seq<u8>)>
    decreases count,
{
    if count == 0 {
        Some((Seq::empty(), bytes))
    } else {
        match parse_monitor(bytes) {
            Some((first, rest)) => match parse_monitor_items(rest, (count - 1) as nat) {
                Some((others, rest2)) => Some((seq![first] + others, rest2)),
                None => None,
            },
            None => None,
        }
    }
}

/// A list of displays: their number as a `u64`, then each in turn.
pub open spec fn ser_monitor_list(items: Seq<MonitorDescriptionView>) -> Seq<u8> {
    le_bytes(items.len(), 8) + ser_monitor_items(items)
}

/// The list of displays that `bytes` starts with, and what follows it.
pub open spec fn parse_monitor_list(
    bytes: Seq<u8>,
) -> Option<(Seq<MonitorDescriptionView>, Seq<u8>)> {
    match parse_uint(bytes, 8) {
        Some((count, rest)) => parse_monitor_items(rest, count),
        None => None,
    }
}

/// Parsing as many displays as were serialized gives them back, whatever follows.
pub proof fn lemma_parse_monitor_items(items: Seq<MonitorDescriptionView>, rest: Seq<u8>)
    requires
        forall|i: int| 0 <= i < items.len() ==> #[trigger] items[i].fits(),
    ensures
        parse_monitor_items(ser_monitor_items(items) + rest, items.len()) == Some((items, rest)),
    decreases items.len(),
{
    if items.len() == 0 {
        assert(ser_monitor_items(items) + rest =~= rest);
        assert(items =~= Seq::empty());
    } else {
        let first = items[0];
        let tail = items.drop_first();
        assert forall|i: int| 0 <= i < tail.len() implies #[trigger] tail[i].fits() by {
            assert(items[i + 1].fits());
        }
        lemma_parse_monitor(first, ser_monitor_items(tail) + rest);
        lemma_parse_monitor_items(tail, rest);
        lemma_concat_assoc(ser_monitor(first), ser_monitor_items(tail), rest);
        assert(seq![first] + tail =~= items);
    }
}

/// Parsing undoes serializing, whatever follows.
pub proof fn lemma_parse_monitor_list(items: Seq<MonitorDescriptionView>, rest: Seq<u8>)
    requires
        items.len() <= u64::MAX,
        forall|i: int| 0 <= i < items.len() ==> #[trigger] items[i].fits(),
    ensures
        parse_monitor_list(ser_monitor_list(items) + rest) == Some((items, rest)),
{
    lemma_radix_pow_values();
    lemma_parse_uint(items.len(), 8, ser_monitor_items(items) + rest);
    lemma_parse_monitor_items(items, rest);
    lemma_concat_assoc(le_bytes(items.len(), 8), ser_monitor_items(items), rest);
}

/// Writing one more at the end adds its bytes at the end.
pub proof fn lemma_ser_monitor_items_push(
    items: Seq<MonitorDescriptionView>,
    last: MonitorDescriptionView,
)
    ensures
        ser_monitor_items(items.push(last)) == ser_monitor_items(items) + ser_monitor(last),
    decreases items.len(),
{
    if items.len() == 0 {
        assert(items.push(last).drop_first() =~= Seq::empty());
        assert(
            ser_monitor_items(items.push(last))
                =~= ser_monitor(last) + ser_monitor_items(Seq::empty())
        );
    } else {
        lemma_ser_monitor_items_push(items.drop_first(), last);
        assert(items.push(last).drop_first() =~= items.drop_first().push(last));
    }
}

/// Appends the binary form of the list to `out`.
pub fn write_monitor_list(out: &mut Vec<u8>, items: &Vec<MonitorDescription>)
    ensures
        final(out)@ == old(out)@ + ser_monitor_list(monitor_views(items@)),
        items@.len() <= u64::MAX,
        forall|i: int| 0 <= i < items@.len() ==> #[trigger] monitor_views(items@)[i].fits(),
{
    put_le(out, items.len() as u128, 8);
    let ghost start = out@;
    let mut i: usize = 0;
    while i < items.len()
        invariant
            i <= items@.len(),
            out@ == start + ser_monitor_items(monitor_views(items@).take(i as int)),
            forall|j: int| 0 <= j < i ==> #[trigger] monitor_views(items@)[j].fits(),
        decreases items@.len() - i,
    {
        write_monitor(out, &items[i]);
        proof {
            let done = monitor_views(items@).take(i as int);
            lemma_ser_monitor_items_push(done, monitor_views(items@)[i as int]);
            assert(
                monitor_views(items@).take(i + 1)
                    =~= done.push(monitor_views(items@)[i as int])
            );
            assert(out@ =~= start + ser_monitor_items(monitor_views(items@).take(i + 1)));
        }
        i = i + 1;
    }
    proof {
        assert(monitor_views(items@).take(items@.len() as int) =~= monitor_views(items@));
        assert(out@ =~= old(out)@ + ser_monitor_list(monitor_views(items@)));
    }
}

/// What is still to come, with what has been read put in front of it.
pub open spec fn after_monitor_list(
    done: Seq<MonitorDescriptionView>,
    remaining: Option<(Seq<MonitorDescriptionView>, Seq<u8>)>,
) -> Option<(Seq<MonitorDescriptionView>, Seq<u8>)> {
    match remaining {
        Some((more, rest)) => Some((done + more, rest)),
        None => None,
    }
}

/// Reads a list of displays at `pos`. Returns it with the position behind it.
pub fn read_monitor_list(bytes: &[u8], pos: usize) -> (r: Option<(Vec<MonitorDescription>, usize)>)
    ensures
        reads(
            bytes@,
            pos as int,
            parse_monitor_list(bytes@.skip(pos as int)),
            match r {
                Some((items, end)) => Some((monitor_views(items@), end as int)),
                None => None,
            },
        ),
{
    let (count, start) = read_uint(bytes, pos, 8)?;
    let mut items: Vec<MonitorDescription> = Vec::new();
    let mut at: usize = start;
    let mut i: u128 = 0;
    assert(
        after_monitor_list(
            monitor_views(items@),
            parse_monitor_items(bytes@.skip(at as int), count as nat,
        )
    )
        == parse_monitor_items(bytes@.skip(start as int), count as nat)) by {
        let whole = parse_monitor_items(bytes@.skip(start as int), count as nat);
        if whole is Some {
            assert(monitor_views(items@) + whole.unwrap().0 =~= whole.unwrap().0);
        }
    }
    while i < count
        invariant
            i <= count,
            pos <= start <= at <= bytes@.len(),
            parse_monitor_list(bytes@.skip(pos as int)) == parse_monitor_items(
                bytes@.skip(start as int),
                count as nat,
            ),
            after_monitor_list(
                monitor_views(items@),
                parse_monitor_items(bytes@.skip(at as int), (count - i) as nat),
            )
                == parse_monitor_items(bytes@.skip(start as int), count as nat),
        decreases count - i,
    {
        let ghost done = monitor_views(items@);
        proof {
            let here = bytes@.skip(at as int);
            assert(
                parse_monitor(here) is None ==>
                    parse_monitor_items(here, (count - i) as nat) is None
            );
        }
        let (item, next) = read_monitor(bytes, at)?;
        items.push(item);
        proof {
            let remaining = parse_monitor_items(bytes@.skip(next as int), (count - i - 1) as nat);
            assert(monitor_views(items@) =~= done.push(item@));
            if remaining is Some {
                let more = remaining.unwrap().0;
                assert(done + (seq![item@] + more) =~= done.push(item@) + more);
            }
        }
        at = next;
        i = i + 1;
    }
    proof {
        assert(monitor_views(items@) + Seq::empty() =~= monitor_views(items@));
    }
    Some((items, at))
}

/// The binary form of a list of displays on offer: its fields in order.
#[verifier::opaque]
pub open spec fn ser_select_monitor_response(
    value: EndPointNegotiateSelectMonitorResponseView,
) -> Seq<u8> {
    ser_monitor_list(value.monitor_descriptions)
}

/// What `bytes` starts with, read as a list of displays on offer, and what follows it.
#[verifier::opaque]
pub open spec fn parse_select_monitor_response(
    bytes: Seq<u8>,
) -> Option<(EndPointNegotiateSelectMonitorResponseView, Seq<u8>)> {
    let monitor_descriptions = parse_monitor_list(bytes);
    if monitor_descriptions is Some {
        Some(
            (
                EndPointNegotiateSelectMonitorResponseView {
                    monitor_descriptions: monitor_descriptions.unwrap().0,
                },
                monitor_descriptions.unwrap().1,
            ),
        )
    } else {
        None
    }
}

/// Parsing undoes serializing, whatever follows.
pub proof fn lemma_parse_select_monitor_response(
    value: EndPointNegotiateSelectMonitorResponseView,
    rest: Seq<u8>,
)
    requires
        value.fits(),
    ensures
        parse_select_monitor_response(ser_select_monitor_response(value) + rest)
            == Some((value, rest)),
{
    reveal(ser_select_monitor_response);
    reveal(parse_select_monitor_response);
    lemma_parse_monitor_list(value.monitor_descriptions, rest);
}

/// Appends the binary form of `value` to `out`.
pub fn write_select_monitor_response(
    out: &mut Vec<u8>,
    value: &EndPointNegotiateSelectMonitorResponse,
)
    ensures
        final(out)@ == old(out)@ + ser_select_monitor_response(value@),
        value@.fits(),
{
    proof {
        reveal(ser_select_monitor_response);
    }
    write_monitor_list(out, &value.monitor_descriptions);
}

/// Reads a list of displays on offer at `pos`. Returns it with the position behind it.
pub fn read_select_monitor_response(
    bytes: &[u8],
    pos: usize,
) -> (r: Option<(EndPointNegotiateSelectMonitorResponse, usize)>)
    ensures
        reads(bytes@, pos as int, parse_select_monitor_response(bytes@.skip(pos as int)), got(r)),
{
    proof {
        reveal(parse_select_monitor_response);
    }
    let (monitor_descriptions, pos0) = read_monitor_list(bytes, pos)?;
    Some((EndPointNegotiateSelectMonitorResponse { monitor_descriptions }, pos0))
}

/// The binary form of a finishing request: its fields in order.
#[verifier::opaque]
pub open spec fn ser_finished_request(value: EndPointNegotiateFinishedRequestView) -> Seq<u8> {
    ser_string(value.selected_monitor_id)
        + ser_u8(value.expected_frame_rate)
}

/// What `bytes` starts with, read as a finishing request, and what follows it.
#[verifier::opaque]
pub open spec fn parse_finished_request(
    bytes: Seq<u8>,
) -> Option<(EndPointNegotiateFinishedRequestView, Seq<u8>)> {
    let selected_monitor_id = parse_string(bytes);
    let expected_frame_rate = parse_u8(selected_monitor_id.unwrap().1);
    if selected_monitor_id is Some && expected_frame_rate is Some {
        Some(
            (
                EndPointNegotiateFinishedRequestView {
                    selected_monitor_id: selected_monitor_id.unwrap().0,
                    expected_frame_rate: expected_frame_rate.unwrap().0,
                },
                expected_frame_rate.unwrap().1,
            ),
        )
    } else {
        None
    }
}

/// Parsing undoes serializing, whatever follows.
pub proof fn lemma_parse_finished_request(
    value: EndPointNegotiateFinishedRequestView,
    rest: Seq<u8>,
)
    requires
        value.fits(),
    ensures
        parse_finished_request(ser_finished_request(value) + rest) == Some((value, rest)),
{
    reveal(ser_finished_request);
    reveal(parse_finished_request);
    let after_selected_monitor_id = ser_u8(value.expected_frame_rate) + rest;
    let upto_selected_monitor_id = ser_string(value.selected_monitor_id);
    lemma_concat_assoc(upto_selected_monitor_id, ser_u8(value.expected_frame_rate), rest);
    lemma_parse_string(value.selected_monitor_id, after_selected_monitor_id);
    lemma_parse_u8(value.expected_frame_rate, rest);
}

/// Appends the binary form of `value` to `out`.
pub fn write_finished_request(out: &mut Vec<u8>, value: &EndPointNegotiateFinishedRequest)
    ensures
        final(out)@ == old(out)@ + ser_finished_request(value@),
        value@.fits(),
{
    proof {
        reveal(ser_finished_request);
    }
    write_string(out, value.selected_monitor_id.as_str());
    write_u8(out, value.expected_frame_rate);
    assert(out@ =~= old(out)@ + ser_finished_request(value@));
}

/// Reads a finishing request at `pos`. Returns it with the position behind it.
pub fn read_finished_request(
    bytes: &[u8],
    pos: usize,
) -> (r: Option<(EndPointNegotiateFinishedRequest, usize)>)
    ensures
        reads(bytes@, pos as int, parse_finished_request(bytes@.skip(pos as int)), got(r)),
{
    proof {
        reveal(parse_finished_request);
    }
    let (selected_monitor_id, pos0) = read_string(bytes, pos)?;
    let (expected_frame_rate, pos1) = read_u8(bytes, pos0)?;
    Some((EndPointNegotiateFinishedRequest { selected_monitor_id, expected_frame_rate }, pos1))
}

} // verus!
