//! The decisions of the video decoder: what state it is in, and what each
//! status code of the codec library means for the frame at hand.
//!
//! The codec library itself is driven from outside. It reports with the
//! integers of FFmpeg: zero or more for success, a negated `errno` or a
//! negated tag for failure.

use vstd::prelude::*;

verus! {

/// The status code for the end of the stream: the negated tag `"EOF "`.
pub const AVERROR_EOF: i32 = -541478725;

/// Decoded pictures that may wait for whoever asked for them.
pub const DECODED_QUEUE_CAPACITY: usize = 600;

/// Why the decoder could not be opened.
#[derive(Clone, Copy, Debug, PartialEq, Eq, Structural)]
pub enum DecoderError {
    /// It is open already.
    AlreadyOpened,
    /// The codec library refused, with this status code.
    OpenFailed(i32),
}

/// What a status code means after a packet was handed to the codec.
#[derive(Clone, Copy, Debug, PartialEq, Eq, Structural)]
pub enum SendStatus {
    /// The packet was taken: pictures can be asked for.
    Accepted,
    /// The codec takes no more input until pictures are taken out.
    Again,
    /// The codec has been closed.
    Closed,
    /// The packet is lost; the code says why.
    Failed(i32),
}

/// What a status code means after a picture was asked for.
#[derive(Clone, Copy, Debug, PartialEq, Eq, Structural)]
pub enum ReceiveStatus {
    /// A picture is there.
    Frame,
    /// No picture is ready: the codec wants more input.
    Drained,
    /// The codec has been closed.
    Closed,
    /// No picture; the code says why.
    Failed(i32),
}

/// Where a decoded picture is taken from.
#[derive(Clone, Copy, Debug, PartialEq, Eq, Structural)]
pub enum FrameSource {
    /// From the frame that the codec decoded into.
    Decoded,
    /// From the frame in system memory that the hardware frame was copied to.
    Transferred,
}

/// The status code that stands for the error number `errno`.
pub open spec fn averror(errno: i32) -> int {
    -(errno as int)
}

/// The meaning of `ret` after a packet was handed to the codec. `eagain` is
/// the error number for "try again" on this system.
pub open spec fn send_status(ret: i32, eagain: i32) -> SendStatus {
    if ret == averror(eagain) {
        SendStatus::Again
    } else if ret == AVERROR_EOF {
        SendStatus::Closed
    } else if ret < 0 {
        SendStatus::Failed(ret)
    } else {
        SendStatus::Accepted
    }
}

/// The meaning of `ret` after a picture was asked for.
pub open spec fn receive_status(ret: i32, eagain: i32) -> ReceiveStatus {
    if ret == averror(eagain) {
        ReceiveStatus::Drained
    } else if ret == AVERROR_EOF {
        ReceiveStatus::Closed
    } else if ret < 0 {
        ReceiveStatus::Failed(ret)
    } else {
        ReceiveStatus::Frame
    }
}

/// The meaning of `ret` after a packet was handed to the codec.
pub fn classify_send(ret: i32, eagain: i32) -> (status: SendStatus)
    ensures
        status == send_status(ret, eagain),
{
    if ret as i64 + eagain as i64 == 0 {
        SendStatus::Again
    } else if ret == AVERROR_EOF {
        SendStatus::Closed
    } else if ret < 0 {
        SendStatus::Failed(ret)
    } else {
        SendStatus::Accepted
    }
}

/// The meaning of `ret` after a picture was asked for.
pub fn classify_receive(ret: i32, eagain: i32) -> (status: ReceiveStatus)
    ensures
        status == receive_status(ret, eagain),
{
    if ret as i64 + eagain as i64 == 0 {
        ReceiveStatus::Drained
    } else if ret == AVERROR_EOF {
        ReceiveStatus::Closed
    } else if ret < 0 {
        ReceiveStatus::Failed(ret)
    } else {
        ReceiveStatus::Frame
    }
}

/// What the codec library reported last while one packet is decoded.
#[derive(Clone, Copy, Debug, PartialEq, Eq, Structural)]
pub enum DecodeEvent {
    /// The packet was handed to the codec, with this status code.
    Sent(i32),
    /// A picture was asked for, with this status code.
    Received(i32),
    /// The picture was copied from the device to system memory, with this
    /// status code.
    Transferred(i32),
}

/// What to do next while one packet is decoded.
#[derive(Clone, Copy, Debug, PartialEq, Eq, Structural)]
pub enum DecodeAction {
    /// Ask the codec for a picture.
    Receive,
    /// Copy the picture from the device to system memory.
    Transfer,
    /// Hand the picture on from where it is, then ask for the next.
    Emit(FrameSource),
    /// The packet is done with: release it.
    Finish,
}

/// The state of one decoder.
#[derive(Clone, Copy, Debug, PartialEq, Eq, Structural)]
pub struct VideoDecoder {
    hardware: bool,
    opened: bool,
}

impl VideoDecoder {
    /// Whether the codec decodes on a hardware device.
    pub closed spec fn is_hardware(&self) -> bool {
        self.hardware
    }

    /// Whether the decoder has been opened.
    pub closed spec fn is_opened(&self) -> bool {
        self.opened
    }

    /// A decoder that is not open yet. A codec with a hardware configuration
    /// decodes on the device; any other gets a parser in front of it.
    pub fn new(has_hardware_config: bool) -> (decoder: Self)
        ensures
            decoder.is_hardware() == has_hardware_config,
            !decoder.is_opened(),
    {
        VideoDecoder { hardware: has_hardware_config, opened: false }
    }

    /// Whether input goes through a parser before it reaches the codec.
    pub fn uses_parser(&self) -> (b: bool)
        ensures
            b == !self.is_hardware(),
    {
        !self.hardware
    }

    /// Whether the decoder may be opened now: only once.
    pub fn may_open(&self) -> (r: Result<(), DecoderError>)
        ensures
            r is Ok <==> !self.is_opened(),
            r is Err ==> r == Err::<(), DecoderError>(DecoderError::AlreadyOpened),
    {
        if self.opened {
            Err(DecoderError::AlreadyOpened)
        } else {
            Ok(())
        }
    }

    /// Records what the codec library answered to the request to open: zero
    /// opens the decoder, anything else leaves it closed.
    pub fn open(&mut self, ret: i32) -> (r: Result<(), DecoderError>)
        ensures
            final(self).is_hardware() == old(self).is_hardware(),
            old(self).is_opened() ==> r == Err::<(), DecoderError>(DecoderError::AlreadyOpened)
                && final(self).is_opened(),
            !old(self).is_opened() && ret != 0 ==> r == Err::<(), DecoderError>(
                DecoderError::OpenFailed(ret),
            ) && !final(self).is_opened(),
            !old(self).is_opened() && ret == 0 ==> r is Ok && final(self).is_opened(),
    {
        if self.opened {
            return Err(DecoderError::AlreadyOpened);
        }
        if ret != 0 {
            return Err(DecoderError::OpenFailed(ret));
        }
        self.opened = true;
        Ok(())
    }

    /// Where the picture is after the codec reported one: a hardware decoder
    /// copies it to system memory first, and loses it if the copy fails.
    pub fn frame_source(&self, transfer_ret: i32) -> (source: Option<FrameSource>)
        ensures
            !self.is_hardware() ==> source == Some(FrameSource::Decoded),
            self.is_hardware() && transfer_ret >= 0 ==> source == Some(FrameSource::Transferred),
            self.is_hardware() && transfer_ret < 0 ==> source is None,
    {
        if !self.hardware {
            Some(FrameSource::Decoded)
        } else if transfer_ret < 0 {
            None
        } else {
            Some(FrameSource::Transferred)
        }
    }

    /// What follows `event` while one packet is decoded.
    ///
    /// A packet that the codec took is followed by asking for pictures; one
    /// that it did not take is done with. Each picture of a software decoder
    /// is handed on as it is; each picture of a hardware decoder is copied to
    /// system memory first, and a copy that fails loses the picture and ends
    /// the packet. When the codec has no more pictures, is closed, or fails,
    /// the packet is done with.
    pub open spec fn next_action(self, event: DecodeEvent, eagain: i32) -> DecodeAction {
        match event {
            DecodeEvent::Sent(ret) => if send_status(ret, eagain) == SendStatus::Accepted {
                DecodeAction::Receive
            } else {
                DecodeAction::Finish
            },
            DecodeEvent::Received(ret) => if receive_status(ret, eagain) != ReceiveStatus::Frame {
                DecodeAction::Finish
            } else if self.is_hardware() {
                DecodeAction::Transfer
            } else {
                DecodeAction::Emit(FrameSource::Decoded)
            },
            DecodeEvent::Transferred(ret) => if !self.is_hardware() {
                DecodeAction::Emit(FrameSource::Decoded)
            } else if ret < 0 {
                DecodeAction::Finish
            } else {
                DecodeAction::Emit(FrameSource::Transferred)
            },
        }
    }

    /// What to do after `event` while one packet is decoded. `eagain` is the
    /// error number for "try again" on this system.
    pub fn decode_step(&self, event: DecodeEvent, eagain: i32) -> (action: DecodeAction)
        ensures
            action == self.next_action(event, eagain),
    {
        match event {
            DecodeEvent::Sent(ret) => match classify_send(ret, eagain) {
                SendStatus::Accepted => DecodeAction::Receive,
                _ => DecodeAction::Finish,
            },
            DecodeEvent::Received(ret) => match classify_receive(ret, eagain) {
                ReceiveStatus::Frame => if self.hardware {
                    DecodeAction::Transfer
                } else {
                    DecodeAction::Emit(FrameSource::Decoded)
                },
                _ => DecodeAction::Finish,
            },
            DecodeEvent::Transferred(ret) => match self.frame_source(ret) {
                Some(source) => DecodeAction::Emit(source),
                None => DecodeAction::Finish,
            },
        }
    }

    /// Whether the codec must be flushed before it is freed: only a decoder
    /// that was opened holds pictures.
    pub fn needs_flush(&self) -> (b: bool)
        ensures
            b == self.is_opened(),
    {
        self.opened
    }
}

} // verus!
