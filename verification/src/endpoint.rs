//! One session with one remote peer: its calls, its queues and the state of
//! its negotiation.
//!
//! The session is a state machine. The tasks around it own the socket and the
//! clocks: the reader hands every packet it opened to `handle_message`, the
//! writer takes packets from `take_outbound`, and a caller that waits for a
//! reply holds a slot, a number by which its one-shot channel is found again.

use vstd::prelude::*;
use crate::message::{
    EndPointAudioFrame, EndPointAudioFrameView, EndPointInput, EndPointMessage,
    EndPointMessagePacket, EndPointMessagePacketType, EndPointMessagePacketView,
    EndPointMessageView, EndPointVideoFrame, EndPointVideoFrameView, MonitorDescription,
    MonitorDescriptionView, monitor_views,
};
use crate::negotiation::{
    next_state, plan_capture, planned_capture, CapturePlan, NegotiationError, NegotiationEvent,
    NegotiationState,
};
use crate::queue::BoundedQueue;
use crate::table::{
    call_slots, call_table_get, call_table_insert, call_table_new, call_table_remove, entry_of,
    CallTable,
};

verus! {

/// Seconds that a call waits for its reply unless the caller says otherwise.
pub const CALL_TIMEOUT_SECS: u64 = 5;

/// Seconds that a connection attempt may take.
pub const CONNECT_TIMEOUT_SECS: u64 = 10;

/// Seconds that the answer to the handshake prelude may take.
pub const HANDSHAKE_TIMEOUT_SECS: u64 = 60;

/// Packets that may wait for the writer.
pub const OUTBOUND_CAPACITY: usize = 128;

/// Raw frames that may wait between capture and the encoder.
pub const CAPTURE_QUEUE_CAPACITY: usize = 1;

/// Encoded pictures that may wait for the decoder, and decoded ones for the renderer.
pub const VIDEO_QUEUE_CAPACITY: usize = 16;

/// Samples per second and channel of captured audio.
pub const AUDIO_SAMPLE_RATE: u32 = 48000;

/// Channels of captured audio.
pub const AUDIO_CHANNELS: u8 = 2;

/// Samples per channel in one block of audio.
pub const AUDIO_BLOCK_SAMPLES: u32 = 960;

/// Blocks of audio that may wait for the encoder or the decoder: those of
/// one second of one channel, once for each of the two channels.
pub const AUDIO_QUEUE_CAPACITY: usize = 100;

/// What audio capture runs with.
#[derive(Clone, Copy, Debug, PartialEq, Eq, Structural)]
pub struct AudioCapturePlan {
    pub sample_rate: u32,
    pub channels: u8,
    /// Blocks that may wait between capture and the encoder; when more
    /// arrive, the oldest are dropped.
    pub queue_capacity: usize,
}

/// The number of blocks that may wait in an audio queue: the blocks of one
/// second of one channel, once for each channel.
pub open spec fn audio_queue_blocks(sample_rate: u32, block_samples: u32, channels: u8) -> int {
    if block_samples == 0 {
        0
    } else {
        (sample_rate as int / block_samples as int) * channels as int
    }
}

/// The capacity of the audio queues is that of the audio that is captured.
pub proof fn lemma_audio_queue_capacity()
    ensures
        AUDIO_QUEUE_CAPACITY == audio_queue_blocks(
            AUDIO_SAMPLE_RATE,
            AUDIO_BLOCK_SAMPLES,
            AUDIO_CHANNELS,
        ),
{
}

/// The number of blocks that may wait in an audio queue. Blocks of no
/// samples make no queue.
pub fn audio_queue_capacity(sample_rate: u32, block_samples: u32, channels: u8) -> (blocks: u64)
    ensures
        blocks == audio_queue_blocks(sample_rate, block_samples, channels),
{
    if block_samples == 0 {
        return 0;
    }
    let per_channel: u64 = (sample_rate / block_samples) as u64;
    assert(per_channel * (channels as u64) <= 0xffff_ffff * 0xff) by (nonlinear_arith)
        requires
            per_channel <= 0xffff_ffff,
            channels <= 0xff,
    ;
    per_channel * channels as u64
}

/// Why a packet was not queued for the writer.
#[derive(Clone, Copy, Debug, PartialEq, Eq, Structural)]
pub enum SendError {
    /// The session is closed.
    Closed,
    /// The writer's queue is full.
    QueueFull,
    /// The call id that came up is still waiting for its reply.
    CallIdInUse,
    /// Media may not be sent before the negotiation is finished.
    NotNegotiated,
}

/// What became of a media frame that arrived.
#[derive(Clone, Copy, Debug, PartialEq, Eq, Structural)]
pub enum FrameOutcome {
    /// It waits for the decoder.
    Queued,
    /// It waits for the decoder, and the oldest waiting frame made room for it.
    QueuedOldestDropped,
    /// It was dropped: the negotiation is not finished.
    NotNegotiated,
    /// It was dropped: no decoder has been started.
    NoSink,
}

/// Why a packet that arrived was dropped. The session goes on.
#[derive(Clone, Copy, Debug, PartialEq, Eq, Structural)]
pub enum DropReason {
    /// A request or response without a call id, or a push with one.
    Malformed,
    /// A response to a call that is no longer waiting: it timed out or was
    /// never made.
    LateResponse,
    /// A push of a kind that no sink takes.
    UnknownPush,
}

/// What the reader does with a packet that arrived.
#[derive(Debug)]
pub enum Dispatch {
    /// Run the handler for this request and answer with `reply`.
    Request { call_id: u16, message: EndPointMessage },
    /// A request that no handler takes. An `Error` response was queued, or
    /// could not be.
    Rejected { call_id: u16, answered: Result<(), SendError> },
    /// Hand the message to the caller that waits in `slot`.
    Reply { slot: u64, message: EndPointMessage },
    /// An encoded picture, and what became of it.
    Video(FrameOutcome),
    /// An encoded block of audio, and what became of it.
    Audio(FrameOutcome),
    /// Replay this event on the local system.
    Input(EndPointInput),
    /// A block or the abnormal end of a file transfer.
    FileTransfer(EndPointMessage),
    /// Nothing to do.
    Dropped(DropReason),
}

/// A bounded queue as a value: what waits, oldest first, and how much may wait.
pub struct QueueModel<T> {
    pub items: Seq<T>,
    pub capacity: nat,
}

impl<T> QueueModel<T> {
    /// Whether nothing more may wait.
    pub open spec fn is_full(self) -> bool {
        self.items.len() >= self.capacity
    }

    /// The queue after `item` joined it at the end.
    pub open spec fn with(self, item: T) -> Self {
        QueueModel { items: self.items.push(item), capacity: self.capacity }
    }

    /// The queue after its oldest item left.
    pub open spec fn without_oldest(self) -> Self {
        QueueModel { items: self.items.drop_first(), capacity: self.capacity }
    }

    /// The queue after `item` joined it, the oldest item making room if need be.
    pub open spec fn with_dropping_oldest(self, item: T) -> Self {
        if self.capacity == 0 {
            self
        } else if self.is_full() {
            self.without_oldest().with(item)
        } else {
            self.with(item)
        }
    }
}

/// A session as a value.
pub struct EndPointModel {
    pub local_device_id: Seq<char>,
    pub remote_device_id: Seq<char>,
    /// The display that is captured, once capture has started.
    pub display_id: Option<Seq<char>>,
    /// The id that the next call gets.
    pub next_call_id: u16,
    /// The calls that wait for a reply, each with the slot of its caller.
    pub pending_calls: Map<u16, u64>,
    /// The packets that wait for the writer.
    pub outbound: QueueModel<EndPointMessagePacketView>,
    /// The pictures that wait for the decoder, once one has been started.
    pub video_frames: Option<QueueModel<EndPointVideoFrameView>>,
    /// The blocks of audio that wait for the decoder, once one has been started.
    pub audio_frames: Option<QueueModel<EndPointAudioFrameView>>,
    pub negotiation: NegotiationState,
    pub closed: bool,
}

/// The packet of a call.
pub open spec fn request_packet(
    call_id: u16,
    message: EndPointMessageView,
) -> EndPointMessagePacketView {
    EndPointMessagePacketView {
        typ: EndPointMessagePacketType::Request,
        call_id: Some(call_id),
        message,
    }
}

/// The packet of a reply.
pub open spec fn response_packet(
    call_id: u16,
    message: EndPointMessageView,
) -> EndPointMessagePacketView {
    EndPointMessagePacketView {
        typ: EndPointMessagePacketType::Response,
        call_id: Some(call_id),
        message,
    }
}

/// The packet of a push.
pub open spec fn push_packet(message: EndPointMessageView) -> EndPointMessagePacketView {
    EndPointMessagePacketView { typ: EndPointMessagePacketType::Push, call_id: None, message }
}

/// The id that follows `call_id`: one more, and 0 after 65535.
pub open spec fn following_call_id(call_id: u16) -> u16 {
    if call_id == u16::MAX {
        0
    } else {
        (call_id + 1) as u16
    }
}

/// Whether a handler exists for a message that arrives as a request.
pub open spec fn has_handler(message: EndPointMessageView) -> bool {
    match message {
        EndPointMessageView::HandshakeRequest(_) => true,
        EndPointMessageView::NegotiateVisitDesktopParamsRequest(_) => true,
        EndPointMessageView::NegotiateSelectMonitorRequest(_) => true,
        EndPointMessageView::NegotiateFinishedRequest(_) => true,
        EndPointMessageView::DownloadFileRequest(_) => true,
        EndPointMessageView::SendFileRequest(_) => true,
        _ => false,
    }
}

/// Whether the file-transfer sink takes a message that arrives as a push.
pub open spec fn is_file_transfer_push(message: EndPointMessageView) -> bool {
    match message {
        EndPointMessageView::FileTransferBlock(_) => true,
        EndPointMessageView::FileTransferError(_) => true,
        _ => false,
    }
}

/// Whether a packet pushes an encoded picture.
pub open spec fn is_video_push(packet: EndPointMessagePacketView) -> bool {
    packet.typ == EndPointMessagePacketType::Push && packet.message is VideoFrame
}

/// Packet `i` is the oldest queued packet that pushes a picture.
pub open spec fn is_oldest_video_push(items: Seq<EndPointMessagePacketView>, i: int) -> bool {
    &&& 0 <= i < items.len()
    &&& is_video_push(items[i])
    &&& forall|j: int| 0 <= j < i ==> !is_video_push(#[trigger] items[j])
}

/// No queued packet pushes a picture.
pub open spec fn no_video_push(items: Seq<EndPointMessagePacketView>) -> bool {
    forall|j: int| 0 <= j < items.len() ==> !is_video_push(#[trigger] items[j])
}

impl EndPointModel {
    /// A session that has just been connected.
    pub open spec fn initial(local_device_id: Seq<char>, remote_device_id: Seq<char>) -> Self {
        EndPointModel {
            local_device_id,
            remote_device_id,
            display_id: None,
            next_call_id: 0,
            pending_calls: Map::empty(),
            outbound: QueueModel { items: Seq::empty(), capacity: OUTBOUND_CAPACITY as nat },
            video_frames: None,
            audio_frames: None,
            negotiation: NegotiationState::Idle,
            closed: false,
        }
    }

    /// Whether a packet handed to the writer's queue now is taken.
    pub open spec fn send_outcome(self) -> Result<(), SendError> {
        if self.closed {
            Err(SendError::Closed)
        } else if self.outbound.is_full() {
            Err(SendError::QueueFull)
        } else {
            Ok(())
        }
    }

    /// The session after `packet` was handed to the writer's queue.
    pub open spec fn after_send(self, packet: EndPointMessagePacketView) -> Self {
        if self.send_outcome() is Ok {
            EndPointModel { outbound: self.outbound.with(packet), ..self }
        } else {
            self
        }
    }

    /// The packet that the writer seals next: the oldest that waits, and
    /// none once the session is closed.
    pub open spec fn next_outbound(self) -> Option<EndPointMessagePacketView> {
        if self.closed || self.outbound.items.len() == 0 {
            None
        } else {
            Some(self.outbound.items[0])
        }
    }

    /// Whether a call made now goes out, and under which id.
    pub open spec fn call_outcome(self) -> Result<u16, SendError> {
        if self.closed {
            Err(SendError::Closed)
        } else if self.pending_calls.dom().contains(self.next_call_id) {
            Err(SendError::CallIdInUse)
        } else if self.outbound.is_full() {
            Err(SendError::QueueFull)
        } else {
            Ok(self.next_call_id)
        }
    }

    /// The session after a call was made: the next id is used up in any
    /// case; if the call goes out, it waits in `slot` and its request is
    /// queued.
    pub open spec fn after_call(self, message: EndPointMessageView, slot: u64) -> Self {
        let stepped = EndPointModel { next_call_id: following_call_id(self.next_call_id), ..self };
        if self.call_outcome() is Ok {
            EndPointModel {
                pending_calls: self.pending_calls.insert(self.next_call_id, slot),
                outbound: self.outbound.with(request_packet(self.next_call_id, message)),
                ..stepped
            }
        } else {
            stepped
        }
    }

    /// The session after capture was asked to start: if it can, and the
    /// session has no display yet, the selected display is now the session's.
    pub open spec fn after_capture_start(
        self,
        monitors: Seq<MonitorDescriptionView>,
        id: Seq<char>,
        expected_fps: u8,
    ) -> Self {
        match planned_capture(monitors, id, expected_fps) {
            Ok(plan) if self.display_id is None => EndPointModel {
                display_id: Some(monitors[plan.monitor as int].id),
                ..self
            },
            _ => self,
        }
    }

    /// The session after call `call_id` stopped waiting.
    pub open spec fn after_remove_call(self, call_id: u16) -> Self {
        EndPointModel { pending_calls: self.pending_calls.remove(call_id), ..self }
    }

    /// What becomes of a picture that arrives now.
    pub open spec fn video_outcome(self) -> FrameOutcome {
        if !self.negotiation.media_allowed() {
            FrameOutcome::NotNegotiated
        } else {
            match self.video_frames {
                None => FrameOutcome::NoSink,
                Some(queue) => if queue.is_full() {
                    FrameOutcome::QueuedOldestDropped
                } else {
                    FrameOutcome::Queued
                },
            }
        }
    }

    /// The session after a picture arrived.
    pub open spec fn after_video(self, frame: EndPointVideoFrameView) -> Self {
        match self.video_frames {
            Some(queue) if self.negotiation.media_allowed() => EndPointModel {
                video_frames: Some(queue.with_dropping_oldest(frame)),
                ..self
            },
            _ => self,
        }
    }

    /// What becomes of a block of audio that arrives now.
    pub open spec fn audio_outcome(self) -> FrameOutcome {
        if !self.negotiation.media_allowed() {
            FrameOutcome::NotNegotiated
        } else {
            match self.audio_frames {
                None => FrameOutcome::NoSink,
                Some(queue) => if queue.is_full() {
                    FrameOutcome::QueuedOldestDropped
                } else {
                    FrameOutcome::Queued
                },
            }
        }
    }

    /// The session after a block of audio arrived.
    pub open spec fn after_audio(self, frame: EndPointAudioFrameView) -> Self {
        match self.audio_frames {
            Some(queue) if self.negotiation.media_allowed() => EndPointModel {
                audio_frames: Some(queue.with_dropping_oldest(frame)),
                ..self
            },
            _ => self,
        }
    }

    /// The session after the reader handled `packet`.
    pub open spec fn after_message(self, packet: EndPointMessagePacketView) -> Self {
        if !packet.well_formed() {
            self
        } else {
            match packet.typ {
                EndPointMessagePacketType::Request => if has_handler(packet.message) {
                    self
                } else {
                    self.after_send(
                        response_packet(packet.call_id.unwrap(), EndPointMessageView::Error),
                    )
                },
                EndPointMessagePacketType::Response => self.after_remove_call(
                    packet.call_id.unwrap(),
                ),
                EndPointMessagePacketType::Push => match packet.message {
                    EndPointMessageView::VideoFrame(frame) => self.after_video(frame),
                    EndPointMessageView::AudioFrame(frame) => self.after_audio(frame),
                    _ => self,
                },
            }
        }
    }
}

impl Dispatch {
    /// Whether this is what the reader is to do with `packet` in a session
    /// that stands at `before`.
    pub open spec fn answers(
        self,
        before: EndPointModel,
        packet: EndPointMessagePacketView,
    ) -> bool {
        if !packet.well_formed() {
            self == Dispatch::Dropped(DropReason::Malformed)
        } else {
            match packet.typ {
                EndPointMessagePacketType::Request => if has_handler(packet.message) {
                    self matches Dispatch::Request { call_id, message } && call_id
                        == packet.call_id.unwrap() && message@ == packet.message
                } else {
                    self == (Dispatch::Rejected {
                        call_id: packet.call_id.unwrap(),
                        answered: before.send_outcome(),
                    })
                },
                EndPointMessagePacketType::Response => match entry_of(
                    before.pending_calls,
                    packet.call_id.unwrap(),
                ) {
                    Some(waiting) => self matches Dispatch::Reply { slot, message } && slot
                        == waiting && message@ == packet.message,
                    None => self == Dispatch::Dropped(DropReason::LateResponse),
                },
                EndPointMessagePacketType::Push => match packet.message {
                    EndPointMessageView::VideoFrame(_) => self == Dispatch::Video(
                        before.video_outcome(),
                    ),
                    EndPointMessageView::AudioFrame(_) => self == Dispatch::Audio(
                        before.audio_outcome(),
                    ),
                    EndPointMessageView::Input(input) => self == Dispatch::Input(input),
                    other => if is_file_transfer_push(other) {
                        self matches Dispatch::FileTransfer(message) && message@ == other
                    } else {
                        self == Dispatch::Dropped(DropReason::UnknownPush)
                    },
                },
            }
        }
    }
}

/// The views of a run of packets, in order.
pub open spec fn packet_views(
    packets: Seq<EndPointMessagePacket>,
) -> Seq<EndPointMessagePacketView> {
    Seq::new(packets.len(), |i: int| packets[i]@)
}

/// The views of a run of pictures, in order.
pub open spec fn video_views(frames: Seq<EndPointVideoFrame>) -> Seq<EndPointVideoFrameView> {
    Seq::new(frames.len(), |i: int| frames[i]@)
}

/// The views of a run of audio blocks, in order.
pub open spec fn audio_views(frames: Seq<EndPointAudioFrame>) -> Seq<EndPointAudioFrameView> {
    Seq::new(frames.len(), |i: int| frames[i]@)
}

/// One session with one remote peer.
#[derive(Debug)]
pub struct EndPoint {
    display_id: Option<String>,
    local_device_id: String,
    remote_device_id: String,
    next_call_id: u16,
    pending_calls: CallTable,
    outbound: BoundedQueue<EndPointMessagePacket>,
    video_frames: Option<BoundedQueue<EndPointVideoFrame>>,
    audio_frames: Option<BoundedQueue<EndPointAudioFrame>>,
    negotiation: NegotiationState,
    closed: bool,
}

impl View for EndPoint {
    type V = EndPointModel;

    closed spec fn view(&self) -> EndPointModel {
        EndPointModel {
            local_device_id: self.local_device_id@,
            remote_device_id: self.remote_device_id@,
            display_id: match self.display_id {
                Some(id) => Some(id@),
                None => None,
            },
            next_call_id: self.next_call_id,
            pending_calls: call_slots(self.pending_calls),
            outbound: QueueModel {
                items: packet_views(self.outbound@),
                capacity: self.outbound.capacity(),
            },
            video_frames: match self.video_frames {
                Some(queue) => Some(
                    QueueModel { items: video_views(queue@), capacity: queue.capacity() },
                ),
                None => None,
            },
            audio_frames: match self.audio_frames {
                Some(queue) => Some(
                    QueueModel { items: audio_views(queue@), capacity: queue.capacity() },
                ),
                None => None,
            },
            negotiation: self.negotiation,
            closed: self.closed,
        }
    }
}

/// Whether a handler exists for a message that arrives as a request.
pub fn message_has_handler(message: &EndPointMessage) -> (b: bool)
    ensures
        b == has_handler(message@),
{
    match message {
        EndPointMessage::HandshakeRequest(_) => true,
        EndPointMessage::NegotiateVisitDesktopParamsRequest(_) => true,
        EndPointMessage::NegotiateSelectMonitorRequest(_) => true,
        EndPointMessage::NegotiateFinishedRequest(_) => true,
        EndPointMessage::DownloadFileRequest(_) => true,
        EndPointMessage::SendFileRequest(_) => true,
        _ => false,
    }
}

impl EndPoint {
    /// A session that has just been connected: no call waits, nothing is
    /// queued, and the negotiation has not begun.
    pub fn new(local_device_id: String, remote_device_id: String) -> (endpoint: Self)
        ensures
            endpoint@ == EndPointModel::initial(local_device_id@, remote_device_id@),
    {
        let endpoint = EndPoint {
            display_id: None,
            local_device_id,
            remote_device_id,
            next_call_id: 0,
            pending_calls: call_table_new(),
            outbound: BoundedQueue::new(OUTBOUND_CAPACITY),
            video_frames: None,
            audio_frames: None,
            negotiation: NegotiationState::Idle,
            closed: false,
        };
        assert(endpoint@.outbound.items =~= Seq::empty());
        endpoint
    }

    /// The id of the peer at the other end.
    pub fn remote_device_id(&self) -> (id: &str)
        ensures
            id@ == self@.remote_device_id,
    {
        self.remote_device_id.as_str()
    }

    /// The id of this peer.
    pub fn local_device_id(&self) -> (id: &str)
        ensures
            id@ == self@.local_device_id,
    {
        self.local_device_id.as_str()
    }

    /// The display that is captured, once capture has started.
    pub fn display_id(&self) -> (id: Option<String>)
        ensures
            match id {
                Some(text) => self@.display_id == Some(text@),
                None => self@.display_id is None,
            },
    {
        match &self.display_id {
            Some(id) => Some(id.clone()),
            None => None,
        }
    }

    /// Where the negotiation stands.
    pub fn negotiation_state(&self) -> (state: NegotiationState)
        ensures
            state == self@.negotiation,
    {
        self.negotiation
    }

    /// Moves the negotiation on by one event.
    pub fn advance_negotiation(&mut self, event: NegotiationEvent) -> (state: NegotiationState)
        ensures
            state == next_state(old(self)@.negotiation, event),
            final(self)@ == (EndPointModel { negotiation: state, ..old(self)@ }),
    {
        self.negotiation = self.negotiation.advance(event);
        self.negotiation
    }

    /// Whether the session has been closed.
    pub fn is_closed(&self) -> (b: bool)
        ensures
            b == self@.closed,
    {
        self.closed
    }

    /// Closes the session: from now on nothing is queued for the writer.
    /// Closing twice is the same as closing once.
    pub fn close(&mut self)
        ensures
            final(self)@ == (EndPointModel { closed: true, ..old(self)@ }),
    {
        self.closed = true;
    }

    /// Hands a packet to the writer's queue. A full queue turns it away.
    pub fn send(&mut self, packet: EndPointMessagePacket) -> (r: Result<(), SendError>)
        ensures
            r == old(self)@.send_outcome(),
            final(self)@ == old(self)@.after_send(packet@),
    {
        if self.closed {
            return Err(SendError::Closed);
        }
        match self.outbound.try_push(packet) {
            Ok(()) => {
                assert(packet_views(self.outbound@) =~= packet_views(old(self).outbound@).push(
                    packet@,
                ));
                Ok(())
            },
            Err(_) => Err(SendError::QueueFull),
        }
    }

    /// Makes a call: takes the next call id, lets the caller wait in `slot`
    /// and queues the request. Returns the id of the call.
    ///
    /// The id is used up whether or not the call goes out. An id whose last
    /// call still waits is not given to another call.
    pub fn call(&mut self, message: EndPointMessage, slot: u64) -> (r: Result<u16, SendError>)
        ensures
            r == old(self)@.call_outcome(),
            final(self)@ == old(self)@.after_call(message@, slot),
    {
        let call_id: u16 = self.next_call_id;
        self.next_call_id = if call_id == u16::MAX {
            0
        } else {
            call_id + 1
        };
        if self.closed {
            return Err(SendError::Closed);
        }
        if call_table_get(&self.pending_calls, call_id).is_some() {
            return Err(SendError::CallIdInUse);
        }
        if self.outbound.is_full() {
            return Err(SendError::QueueFull);
        }
        let packet = EndPointMessagePacket {
            typ: EndPointMessagePacketType::Request,
            call_id: Some(call_id),
            message,
        };
        let ghost queued = packet@;
        let _ = call_table_insert(&mut self.pending_calls, call_id, slot);
        let _ = self.outbound.try_push(packet);
        assert(packet_views(self.outbound@) =~= packet_views(old(self).outbound@).push(queued));
        Ok(call_id)
    }

    /// Queues the reply to call `call_id` of the remote peer.
    pub fn reply(&mut self, call_id: u16, message: EndPointMessage) -> (r: Result<(), SendError>)
        ensures
            r == old(self)@.send_outcome(),
            final(self)@ == old(self)@.after_send(response_packet(call_id, message@)),
    {
        let packet = EndPointMessagePacket {
            typ: EndPointMessagePacketType::Response,
            call_id: Some(call_id),
            message,
        };
        self.send(packet)
    }

    /// Queues a message that expects no reply.
    pub fn push(&mut self, message: EndPointMessage) -> (r: Result<(), SendError>)
        ensures
            r == old(self)@.send_outcome(),
            final(self)@ == old(self)@.after_send(push_packet(message@)),
    {
        let packet = EndPointMessagePacket {
            typ: EndPointMessagePacketType::Push,
            call_id: None,
            message,
        };
        self.send(packet)
    }

    /// The packet that the writer is to seal next, in the order of queuing.
    /// A closed session hands out nothing, whatever still waits in it: once
    /// a session is torn down, its writer writes no further frame.
    pub fn take_outbound(&mut self) -> (packet: Option<EndPointMessagePacket>)
        ensures
            match old(self)@.next_outbound() {
                Some(next) => packet matches Some(p) && p@ == next && final(self)@
                    == (EndPointModel {
                    outbound: old(self)@.outbound.without_oldest(),
                    ..old(self)@
                }),
                None => packet is None && final(self)@ == old(self)@,
            },
    {
        if self.closed {
            return None;
        }
        let packet = self.outbound.pop();
        proof {
            if old(self).outbound@.len() > 0 {
                assert(packet_views(self.outbound@) =~= packet_views(
                    old(self).outbound@,
                ).drop_first());
            }
        }
        packet
    }

    /// Lets call `call_id` stop waiting, as its caller does when the time
    /// is up or the request could not be sent. Returns the slot it waited in.
    pub fn remove_call(&mut self, call_id: u16) -> (slot: Option<u64>)
        ensures
            slot == entry_of(old(self)@.pending_calls, call_id),
            final(self)@ == old(self)@.after_remove_call(call_id),
    {
        call_table_remove(&mut self.pending_calls, call_id)
    }

    /// Takes the reply to call `call_id`: the call stops waiting, and the
    /// message goes to the slot it waited in. A reply to a call that does not
    /// wait is dropped and changes nothing.
    pub fn set_call_reply(&mut self, call_id: u16, message: EndPointMessage) -> (r: Option<
        (u64, EndPointMessage),
    >)
        ensures
            match entry_of(old(self)@.pending_calls, call_id) {
                Some(waiting) => r matches Some((slot, reply)) && slot == waiting && reply
                    == message,
                None => r is None,
            },
            final(self)@ == old(self)@.after_remove_call(call_id),
            entry_of(old(self)@.pending_calls, call_id) is None ==> final(self)@ == old(self)@,
    {
        match call_table_remove(&mut self.pending_calls, call_id) {
            Some(slot) => Some((slot, message)),
            None => {
                assert(self@.pending_calls =~= old(self)@.pending_calls);
                None
            },
        }
    }

    /// Takes a picture that arrived. Before the negotiation is finished it is
    /// dropped; so it is while no decoder has been started. A full queue
    /// drops its oldest picture to make room.
    pub fn enqueue_video_frame(
        &mut self,
        video_frame: EndPointVideoFrame,
    ) -> (outcome: FrameOutcome)
        ensures
            outcome == old(self)@.video_outcome(),
            final(self)@ == old(self)@.after_video(video_frame@),
    {
        if !self.negotiation.allows_media() {
            return FrameOutcome::NotNegotiated;
        }
        let ghost frame = video_frame@;
        match self.video_frames.take() {
            None => FrameOutcome::NoSink,
            Some(queue) => {
                let mut queue = queue;
                let ghost before = queue@;
                let full: bool = queue.is_full();
                let _ = queue.push_drop_oldest(video_frame);
                proof {
                    if before.len() < queue.capacity() {
                        assert(video_views(queue@) =~= video_views(before).push(frame));
                    } else if queue.capacity() > 0 {
                        assert(video_views(queue@) =~= video_views(before).drop_first().push(
                            frame,
                        ));
                    }
                }
                self.video_frames = Some(queue);
                if full {
                    FrameOutcome::QueuedOldestDropped
                } else {
                    FrameOutcome::Queued
                }
            },
        }
    }

    /// Takes a block of audio that arrived, as `enqueue_video_frame` takes a picture.
    pub fn enqueue_audio_frame(
        &mut self,
        audio_frame: EndPointAudioFrame,
    ) -> (outcome: FrameOutcome)
        ensures
            outcome == old(self)@.audio_outcome(),
            final(self)@ == old(self)@.after_audio(audio_frame@),
    {
        if !self.negotiation.allows_media() {
            return FrameOutcome::NotNegotiated;
        }
        let ghost frame = audio_frame@;
        match self.audio_frames.take() {
            None => FrameOutcome::NoSink,
            Some(queue) => {
                let mut queue = queue;
                let ghost before = queue@;
                let full: bool = queue.is_full();
                let _ = queue.push_drop_oldest(audio_frame);
                proof {
                    if before.len() < queue.capacity() {
                        assert(audio_views(queue@) =~= audio_views(before).push(frame));
                    } else if queue.capacity() > 0 {
                        assert(audio_views(queue@) =~= audio_views(before).drop_first().push(
                            frame,
                        ));
                    }
                }
                self.audio_frames = Some(queue);
                if full {
                    FrameOutcome::QueuedOldestDropped
                } else {
                    FrameOutcome::Queued
                }
            },
        }
    }

    /// The next picture for the decoder, in the order of arrival.
    pub fn next_video_frame(&mut self) -> (frame: Option<EndPointVideoFrame>)
        ensures
            match old(self)@.video_frames {
                Some(queue) if queue.items.len() > 0 => frame matches Some(f) && f@
                    == queue.items[0] && final(self)@ == (EndPointModel {
                    video_frames: Some(queue.without_oldest()),
                    ..old(self)@
                }),
                _ => frame is None && final(self)@ == old(self)@,
            },
    {
        match self.video_frames.take() {
            None => None,
            Some(queue) => {
                let mut queue = queue;
                let ghost before = queue@;
                let frame = queue.pop();
                proof {
                    if before.len() > 0 {
                        assert(video_views(queue@) =~= video_views(before).drop_first());
                    }
                }
                self.video_frames = Some(queue);
                frame
            },
        }
    }

    /// The next block of audio for the decoder, in the order of arrival.
    pub fn next_audio_frame(&mut self) -> (frame: Option<EndPointAudioFrame>)
        ensures
            match old(self)@.audio_frames {
                Some(queue) if queue.items.len() > 0 => frame matches Some(f) && f@
                    == queue.items[0] && final(self)@ == (EndPointModel {
                    audio_frames: Some(queue.without_oldest()),
                    ..old(self)@
                }),
                _ => frame is None && final(self)@ == old(self)@,
            },
    {
        match self.audio_frames.take() {
            None => None,
            Some(queue) => {
                let mut queue = queue;
                let ghost before = queue@;
                let frame = queue.pop();
                proof {
                    if before.len() > 0 {
                        assert(audio_views(queue@) =~= audio_views(before).drop_first());
                    }
                }
                self.audio_frames = Some(queue);
                frame
            },
        }
    }

    /// Starts taking pictures for a decoder: from now on pictures that
    /// arrive are queued, sixteen at most. A second start changes nothing.
    pub fn start_video_render(&mut self) -> (started: bool)
        ensures
            started == (old(self)@.video_frames is None),
            final(self)@ == if started {
                EndPointModel {
                    video_frames: Some(
                        QueueModel { items: Seq::empty(), capacity: VIDEO_QUEUE_CAPACITY as nat },
                    ),
                    ..old(self)@
                }
            } else {
                old(self)@
            },
    {
        if self.video_frames.is_none() {
            let queue: BoundedQueue<EndPointVideoFrame> = BoundedQueue::new(VIDEO_QUEUE_CAPACITY);
            assert(video_views(queue@) =~= Seq::empty());
            self.video_frames = Some(queue);
            true
        } else {
            false
        }
    }

    /// Starts taking blocks of audio for a decoder, a hundred at most. A
    /// second start changes nothing.
    pub fn start_audio_play(&mut self) -> (started: bool)
        ensures
            started == (old(self)@.audio_frames is None),
            final(self)@ == if started {
                EndPointModel {
                    audio_frames: Some(
                        QueueModel { items: Seq::empty(), capacity: AUDIO_QUEUE_CAPACITY as nat },
                    ),
                    ..old(self)@
                }
            } else {
                old(self)@
            },
    {
        if self.audio_frames.is_none() {
            let queue: BoundedQueue<EndPointAudioFrame> = BoundedQueue::new(AUDIO_QUEUE_CAPACITY);
            assert(audio_views(queue@) =~= Seq::empty());
            self.audio_frames = Some(queue);
            true
        } else {
            false
        }
    }

    /// Decides what to capture: the display with the wanted id, else the
    /// primary display, at the expected frame rate but no faster than the
    /// display refreshes. The first display that capture starts on stays the
    /// session's display.
    pub fn start_video_capture(
        &mut self,
        monitors: &Vec<MonitorDescription>,
        display_id: &str,
        except_fps: u8,
    ) -> (r: Result<CapturePlan, NegotiationError>)
        ensures
            r == planned_capture(monitor_views(monitors@), display_id@, except_fps),
            final(self)@ == old(self)@.after_capture_start(
                monitor_views(monitors@),
                display_id@,
                except_fps,
            ),
            r matches Ok(plan) ==> plan.monitor < monitors@.len() && plan.fps > 0,
    {
        let plan: CapturePlan = plan_capture(monitors, display_id, except_fps)?;
        if self.display_id.is_none() {
            self.display_id = Some(monitors[plan.monitor].id.clone());
        }
        Ok(plan)
    }

    /// Decides what audio capture runs with. Nothing is captured before the
    /// negotiation is finished.
    pub fn start_audio_capture(&self) -> (r: Result<AudioCapturePlan, SendError>)
        ensures
            self@.negotiation.media_allowed() ==> r == Ok::<AudioCapturePlan, SendError>(
                AudioCapturePlan {
                    sample_rate: AUDIO_SAMPLE_RATE,
                    channels: AUDIO_CHANNELS,
                    queue_capacity: AUDIO_QUEUE_CAPACITY,
                },
            ),
            !self@.negotiation.media_allowed() ==> r == Err::<AudioCapturePlan, SendError>(
                SendError::NotNegotiated,
            ),
    {
        if !self.negotiation.allows_media() {
            return Err(SendError::NotNegotiated);
        }
        Ok(
            AudioCapturePlan {
                sample_rate: AUDIO_SAMPLE_RATE,
                channels: AUDIO_CHANNELS,
                queue_capacity: AUDIO_QUEUE_CAPACITY,
            },
        )
    }

    /// Queues an encoded picture for the remote peer.
    ///
    /// Nothing is sent before the negotiation is finished. When the
    /// writer's queue is full, the oldest picture that waits in it is
    /// dropped in favour of the new one; packets of any other kind are never
    /// dropped, so a queue that is full of them turns the picture away.
    /// Returns whether an older picture was dropped.
    pub fn push_video_frame(&mut self, video_frame: EndPointVideoFrame) -> (r: Result<
        bool,
        SendError,
    >)
        ensures
            ({
                let before = old(self)@;
                let packet = push_packet(EndPointMessageView::VideoFrame(video_frame@));
                if !before.negotiation.media_allowed() {
                    r == Err::<bool, SendError>(SendError::NotNegotiated) && final(self)@ == before
                } else if before.closed {
                    r == Err::<bool, SendError>(SendError::Closed) && final(self)@ == before
                } else if !before.outbound.is_full() {
                    r == Ok::<bool, SendError>(false) && final(self)@ == (EndPointModel {
                        outbound: before.outbound.with(packet),
                        ..before
                    })
                } else if no_video_push(before.outbound.items) {
                    r == Err::<bool, SendError>(SendError::QueueFull) && final(self)@ == before
                } else {
                    r == Ok::<bool, SendError>(true) && exists|i: int|
                        is_oldest_video_push(before.outbound.items, i) && final(self)@
                            == (EndPointModel {
                            outbound: QueueModel {
                                items: before.outbound.items.remove(i).push(packet),
                                capacity: before.outbound.capacity,
                            },
                            ..before
                        })
                }
            }),
    {
        if !self.negotiation.allows_media() {
            return Err(SendError::NotNegotiated);
        }
        if self.closed {
            return Err(SendError::Closed);
        }
        let packet = EndPointMessagePacket {
            typ: EndPointMessagePacketType::Push,
            call_id: None,
            message: EndPointMessage::VideoFrame(video_frame),
        };
        let ghost queued = packet@;
        let ghost before = self.outbound@;
        if !self.outbound.is_full() {
            let _ = self.outbound.try_push(packet);
            assert(packet_views(self.outbound@) =~= packet_views(before).push(queued));
            return Ok(false);
        }
        let mut i: usize = 0;
        let mut found: bool = false;
        let len: usize = self.outbound.len();
        while i < len && !found
            invariant
                i <= len == before.len(),
                self.outbound@ == before,
                forall|j: int| 0 <= j < i ==> !is_video_push(#[trigger] packet_views(before)[j]),
                found ==> i < len && is_video_push(packet_views(before)[i as int]),
            decreases len - i + if found { 0int } else { 1int },
        {
            let is_video: bool = match self.outbound.get(i) {
                Some(waiting) => match (&waiting.typ, &waiting.message) {
                    (EndPointMessagePacketType::Push, EndPointMessage::VideoFrame(_)) => true,
                    _ => false,
                },
                None => false,
            };
            assert(is_video == is_video_push(packet_views(before)[i as int]));
            if is_video {
                found = true;
            } else {
                i = i + 1;
            }
        }
        if !found {
            return Err(SendError::QueueFull);
        }
        proof {
            assert(is_oldest_video_push(packet_views(before), i as int));
        }
        let _ = self.outbound.remove(i);
        let _ = self.outbound.try_push(packet);
        proof {
            assert(packet_views(self.outbound@) =~= packet_views(before).remove(i as int).push(
                queued,
            ));
        }
        Ok(true)
    }

    /// Queues an encoded block of audio for the remote peer. Nothing is sent
    /// before the negotiation is finished.
    pub fn push_audio_frame(
        &mut self,
        audio_frame: EndPointAudioFrame,
    ) -> (r: Result<(), SendError>)
        ensures
            ({
                let before = old(self)@;
                let packet = push_packet(EndPointMessageView::AudioFrame(audio_frame@));
                if !before.negotiation.media_allowed() {
                    r == Err::<(), SendError>(SendError::NotNegotiated) && final(self)@ == before
                } else {
                    r == before.send_outcome() && final(self)@ == before.after_send(packet)
                }
            }),
    {
        if !self.negotiation.allows_media() {
            return Err(SendError::NotNegotiated);
        }
        self.push(EndPointMessage::AudioFrame(audio_frame))
    }

    /// Decides what the reader does with a packet that arrived, and does the
    /// part of it that concerns the session itself.
    ///
    /// A request goes to its handler; one that no handler takes is answered
    /// with `Error` under the same call id. A response goes to the caller
    /// that waits for it, which then waits no longer; without such a caller
    /// it is dropped. A push goes to its sink. A packet of the wrong shape is
    /// dropped.
    pub fn handle_message(&mut self, packet: EndPointMessagePacket) -> (todo: Dispatch)
        ensures
            todo.answers(old(self)@, packet@),
            final(self)@ == old(self)@.after_message(packet@),
    {
        let EndPointMessagePacket { typ, call_id, message } = packet;
        match typ {
            EndPointMessagePacketType::Request => match call_id {
                None => Dispatch::Dropped(DropReason::Malformed),
                Some(call_id) => {
                    if message_has_handler(&message) {
                        Dispatch::Request { call_id, message }
                    } else {
                        let answered = self.reply(call_id, EndPointMessage::Error);
                        Dispatch::Rejected { call_id, answered }
                    }
                },
            },
            EndPointMessagePacketType::Response => match call_id {
                None => Dispatch::Dropped(DropReason::Malformed),
                Some(call_id) => match self.set_call_reply(call_id, message) {
                    Some((slot, message)) => Dispatch::Reply { slot, message },
                    None => Dispatch::Dropped(DropReason::LateResponse),
                },
            },
            EndPointMessagePacketType::Push => match call_id {
                Some(_) => Dispatch::Dropped(DropReason::Malformed),
                None => match message {
                    EndPointMessage::VideoFrame(frame) => Dispatch::Video(
                        self.enqueue_video_frame(frame),
                    ),
                    EndPointMessage::AudioFrame(frame) => Dispatch::Audio(
                        self.enqueue_audio_frame(frame),
                    ),
                    EndPointMessage::Input(input) => Dispatch::Input(input),
                    EndPointMessage::FileTransferBlock(block) => Dispatch::FileTransfer(
                        EndPointMessage::FileTransferBlock(block),
                    ),
                    EndPointMessage::FileTransferError(error) => Dispatch::FileTransfer(
                        EndPointMessage::FileTransferError(error),
                    ),
                    _ => Dispatch::Dropped(DropReason::UnknownPush),
                },
            },
        }
    }
}

/// Every packet that a session builds has the shape of its role: a request
/// and a response name their call, a push names none.
pub proof fn lemma_built_packets_are_well_formed(call_id: u16, message: EndPointMessageView)
    ensures
        request_packet(call_id, message).well_formed(),
        request_packet(call_id, message).call_id == Some(call_id),
        response_packet(call_id, message).well_formed(),
        response_packet(call_id, message).call_id == Some(call_id),
        push_packet(message).well_formed(),
        push_packet(message).call_id is None,
{
}

/// A call that goes out gets an id that no waiting call has, and every call
/// that waited before still waits, in its own slot.
pub proof fn lemma_call_ids_are_distinct(
    before: EndPointModel,
    message: EndPointMessageView,
    slot: u64,
    other: u16,
)
    requires
        before.call_outcome() is Ok,
        before.pending_calls.dom().contains(other),
    ensures
        before.call_outcome() == Ok::<u16, SendError>(before.next_call_id),
        other != before.next_call_id,
        before.after_call(message, slot).pending_calls.dom().contains(before.next_call_id),
        before.after_call(message, slot).pending_calls[before.next_call_id] == slot,
        before.after_call(message, slot).pending_calls.dom().contains(other),
        before.after_call(message, slot).pending_calls[other] == before.pending_calls[other],
        before.after_call(message, slot).outbound.items.last() == request_packet(
            before.next_call_id,
            message,
        ),
{
}

/// Once a call has stopped waiting, a response to it is dropped and leaves
/// the session as it is.
pub proof fn lemma_late_response_is_dropped(
    before: EndPointModel,
    call_id: u16,
    message: EndPointMessageView,
    todo: Dispatch,
)
    requires
        todo.answers(before.after_remove_call(call_id), response_packet(call_id, message)),
    ensures
        todo == Dispatch::Dropped(DropReason::LateResponse),
        before.after_remove_call(call_id).after_message(response_packet(call_id, message))
            == before.after_remove_call(call_id),
{
    let waiting = before.after_remove_call(call_id);
    assert(waiting.pending_calls.remove(call_id) =~= waiting.pending_calls);
}

/// A picture or a block of audio that arrives before the negotiation is
/// finished is dropped and leaves the session as it is.
pub proof fn lemma_media_before_finish_is_dropped(
    before: EndPointModel,
    video: EndPointVideoFrameView,
    audio: EndPointAudioFrameView,
)
    requires
        !before.negotiation.media_allowed(),
    ensures
        before.video_outcome() == FrameOutcome::NotNegotiated,
        before.after_message(push_packet(EndPointMessageView::VideoFrame(video))) == before,
        before.audio_outcome() == FrameOutcome::NotNegotiated,
        before.after_message(push_packet(EndPointMessageView::AudioFrame(audio))) == before,
{
}

/// The writer's queue and the decoders' queues never grow beyond their
/// capacity, whatever arrives.
pub proof fn lemma_queues_stay_bounded(before: EndPointModel, packet: EndPointMessagePacketView)
    ensures
        before.outbound.items.len() <= before.outbound.capacity ==> before.after_message(
            packet,
        ).outbound.items.len() <= before.outbound.capacity,
        match before.video_frames {
            Some(queue) => queue.items.len() <= queue.capacity ==> (before.after_message(
                packet,
            ).video_frames matches Some(after) && after.items.len() <= queue.capacity
                && after.capacity == queue.capacity),
            None => true,
        },
        match before.audio_frames {
            Some(queue) => queue.items.len() <= queue.capacity ==> (before.after_message(
                packet,
            ).audio_frames matches Some(after) && after.items.len() <= queue.capacity
                && after.capacity == queue.capacity),
            None => true,
        },
{
}

/// A closed session stays closed and gives its writer nothing more to
/// write, whatever is queued in it and whatever arrives.
pub proof fn lemma_closed_session_writes_nothing(
    before: EndPointModel,
    packet: EndPointMessagePacketView,
    message: EndPointMessageView,
    slot: u64,
)
    requires
        before.closed,
    ensures
        before.next_outbound() is None,
        before.after_message(packet).closed,
        before.after_message(packet).next_outbound() is None,
        before.after_send(packet) == before,
        before.after_call(message, slot).next_outbound() is None,
{
}

} // verus!
