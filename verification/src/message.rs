//! The messages that two endpoints exchange, and the packet that carries each.
//!
//! Every type has a view, written `@`: the same record with sequences in
//! place of vectors and text. A type that owns no buffer is its own view.
//! The binary form of each is defined on views, in `codec`.

use vstd::prelude::*;
use vstd::utf8::encode_utf8;
use crate::codec::primitives::opt_bytes_view;

verus! {

/// A video codec that a peer can encode or decode.
#[derive(Clone, Copy, Debug, PartialEq, Eq, Structural)]
pub enum VideoCodec {
    H264,
    HEVC,
    VP8,
    VP9,
}

impl View for VideoCodec {
    type V = VideoCodec;

    open spec fn view(&self) -> VideoCodec {
        *self
    }
}

/// An audio sample rate, from lowest to highest.
#[derive(Clone, Copy, Debug, PartialEq, Eq, Structural)]
pub enum AudioSampleRate {
    HZ8000,
    HZ12000,
    HZ16000,
    HZ24000,
    HZ48000,
}

impl View for AudioSampleRate {
    type V = AudioSampleRate;

    open spec fn view(&self) -> AudioSampleRate {
        *self
    }
}

/// The format of one audio sample.
#[derive(Clone, Copy, Debug, PartialEq, Eq, Structural)]
pub enum AudioSampleFormat {
    I16,
    U16,
    F32,
}

impl View for AudioSampleFormat {
    type V = AudioSampleFormat;

    open spec fn view(&self) -> AudioSampleFormat {
        *self
    }
}

/// Asks the passive peer to admit the active peer to a visit.
#[derive(Clone, Debug, PartialEq, Eq)]
pub struct EndPointHandshakeRequest {
    pub active_device_id: i64,
    pub passive_device_id: i64,
    pub visit_credentials: String,
}

/// The view of [`EndPointHandshakeRequest`].
pub struct EndPointHandshakeRequestView {
    pub active_device_id: i64,
    pub passive_device_id: i64,
    pub visit_credentials: Seq<char>,
}

impl View for EndPointHandshakeRequest {
    type V = EndPointHandshakeRequestView;

    open spec fn view(&self) -> EndPointHandshakeRequestView {
        EndPointHandshakeRequestView {
            active_device_id: self.active_device_id,
            passive_device_id: self.passive_device_id,
            visit_credentials: self.visit_credentials@,
        }
    }
}

impl EndPointHandshakeRequestView {
    /// Every length in the record can be written as a `u64`.
    pub open spec fn fits(self) -> bool {
        &&& encode_utf8(self.visit_credentials).len() <= u64::MAX
    }
}

/// Admits the active peer.
#[derive(Clone, Copy, Debug, PartialEq, Eq, Structural)]
pub struct EndPointHandshakeResponse {}

impl View for EndPointHandshakeResponse {
    type V = EndPointHandshakeResponse;

    open spec fn view(&self) -> EndPointHandshakeResponse {
        *self
    }
}

/// What the active peer can decode and play: codecs in order of preference,
/// the highest audio sample rate, the sample formats, and whether it plays two channels.
#[derive(Clone, Debug, PartialEq, Eq)]
pub struct EndPointNegotiateVisitDesktopParamsRequest {
    pub video_codecs: Vec<VideoCodec>,
    pub audio_max_sample_rate: AudioSampleRate,
    pub audio_sample_formats: Vec<AudioSampleFormat>,
    pub audio_dual_channel: bool,
}

/// The view of [`EndPointNegotiateVisitDesktopParamsRequest`].
pub struct EndPointNegotiateVisitDesktopParamsRequestView {
    pub video_codecs: Seq<VideoCodec>,
    pub audio_max_sample_rate: AudioSampleRate,
    pub audio_sample_formats: Seq<AudioSampleFormat>,
    pub audio_dual_channel: bool,
}

impl View for EndPointNegotiateVisitDesktopParamsRequest {
    type V = EndPointNegotiateVisitDesktopParamsRequestView;

    open spec fn view(&self) -> EndPointNegotiateVisitDesktopParamsRequestView {
        EndPointNegotiateVisitDesktopParamsRequestView {
            video_codecs: self.video_codecs@,
            audio_max_sample_rate: self.audio_max_sample_rate,
            audio_sample_formats: self.audio_sample_formats@,
            audio_dual_channel: self.audio_dual_channel,
        }
    }
}

impl EndPointNegotiateVisitDesktopParamsRequestView {
    /// Every length in the record can be written as a `u64`.
    pub open spec fn fits(self) -> bool {
        &&& self.video_codecs.len() <= u64::MAX
        &&& self.audio_sample_formats.len() <= u64::MAX
    }
}

/// What the passive peer chose, and the system it runs.
#[derive(Clone, Debug, PartialEq, Eq)]
pub struct EndPointNegotiateVisitDesktopParamsResponse {
    pub video_codec: VideoCodec,
    pub audio_sample_rate: AudioSampleRate,
    pub audio_sample_format: AudioSampleFormat,
    pub audio_dual_channel: bool,
    pub os_type: String,
    pub os_version: String,
}

/// The view of [`EndPointNegotiateVisitDesktopParamsResponse`].
pub struct EndPointNegotiateVisitDesktopParamsResponseView {
    pub video_codec: VideoCodec,
    pub audio_sample_rate: AudioSampleRate,
    pub audio_sample_format: AudioSampleFormat,
    pub audio_dual_channel: bool,
    pub os_type: Seq<char>,
    pub os_version: Seq<char>,
}

impl View for EndPointNegotiateVisitDesktopParamsResponse {
    type V = EndPointNegotiateVisitDesktopParamsResponseView;

    open spec fn view(&self) -> EndPointNegotiateVisitDesktopParamsResponseView {
        EndPointNegotiateVisitDesktopParamsResponseView {
            video_codec: self.video_codec,
            audio_sample_rate: self.audio_sample_rate,
            audio_sample_format: self.audio_sample_format,
            audio_dual_channel: self.audio_dual_channel,
            os_type: self.os_type@,
            os_version: self.os_version@,
        }
    }
}

impl EndPointNegotiateVisitDesktopParamsResponseView {
    /// Every length in the record can be written as a `u64`.
    pub open spec fn fits(self) -> bool {
        &&& encode_utf8(self.os_type).len() <= u64::MAX
        &&& encode_utf8(self.os_version).len() <= u64::MAX
    }
}

/// Asks for the displays of the passive peer.
#[derive(Clone, Copy, Debug, PartialEq, Eq, Structural)]
pub struct EndPointNegotiateSelectMonitorRequest {}

impl View for EndPointNegotiateSelectMonitorRequest {
    type V = EndPointNegotiateSelectMonitorRequest;

    open spec fn view(&self) -> EndPointNegotiateSelectMonitorRequest {
        *self
    }
}

/// One display of the passive peer: a stable id, a name for people, the
/// refresh rate in Hz, the size in pixels, whether it is the primary display,
/// and a screenshot as an encoded image.
#[derive(Clone, Debug, PartialEq, Eq)]
pub struct MonitorDescription {
    pub id: String,
    pub name: String,
    pub frame_rate: u8,
    pub width: u16,
    pub height: u16,
    pub is_primary: bool,
    pub screen_shot: Vec<u8>,
}

/// The view of [`MonitorDescription`].
pub struct MonitorDescriptionView {
    pub id: Seq<char>,
    pub name: Seq<char>,
    pub frame_rate: u8,
    pub width: u16,
    pub height: u16,
    pub is_primary: bool,
    pub screen_shot: Seq<u8>,
}

impl View for MonitorDescription {
    type V = MonitorDescriptionView;

    open spec fn view(&self) -> MonitorDescriptionView {
        MonitorDescriptionView {
            id: self.id@,
            name: self.name@,
            frame_rate: self.frame_rate,
            width: self.width,
            height: self.height,
            is_primary: self.is_primary,
            screen_shot: self.screen_shot@,
        }
    }
}

impl MonitorDescriptionView {
    /// Every length in the record can be written as a `u64`.
    pub open spec fn fits(self) -> bool {
        &&& encode_utf8(self.id).len() <= u64::MAX
        &&& encode_utf8(self.name).len() <= u64::MAX
        &&& self.screen_shot.len() <= u64::MAX
    }
}

/// The views of a list of displays, in order.
pub open spec fn monitor_views(monitors: Seq<MonitorDescription>) -> Seq<MonitorDescriptionView> {
    Seq::new(monitors.len(), |i: int| monitors[i]@)
}

/// The displays that the passive peer offers.
#[derive(Clone, Debug, PartialEq, Eq)]
pub struct EndPointNegotiateSelectMonitorResponse {
    pub monitor_descriptions: Vec<MonitorDescription>,
}

/// The view of [`EndPointNegotiateSelectMonitorResponse`].
pub struct EndPointNegotiateSelectMonitorResponseView {
    pub monitor_descriptions: Seq<MonitorDescriptionView>,
}

impl View for EndPointNegotiateSelectMonitorResponse {
    type V = EndPointNegotiateSelectMonitorResponseView;

    open spec fn view(&self) -> EndPointNegotiateSelectMonitorResponseView {
        EndPointNegotiateSelectMonitorResponseView {
            monitor_descriptions: monitor_views(self.monitor_descriptions@),
        }
    }
}

impl EndPointNegotiateSelectMonitorResponseView {
    /// Every length in the record can be written as a `u64`.
    pub open spec fn fits(self) -> bool {
        &&& self.monitor_descriptions.len() <= u64::MAX
        &&& forall|i: int| 0 <= i < self.monitor_descriptions.len() ==>
            #[trigger] self.monitor_descriptions[i].fits()
    }
}

/// The display that the active peer picked and the frame rate it hopes for.
#[derive(Clone, Debug, PartialEq, Eq)]
pub struct EndPointNegotiateFinishedRequest {
    pub selected_monitor_id: String,
    pub expected_frame_rate: u8,
}

/// The view of [`EndPointNegotiateFinishedRequest`].
pub struct EndPointNegotiateFinishedRequestView {
    pub selected_monitor_id: Seq<char>,
    pub expected_frame_rate: u8,
}

impl View for EndPointNegotiateFinishedRequest {
    type V = EndPointNegotiateFinishedRequestView;

    open spec fn view(&self) -> EndPointNegotiateFinishedRequestView {
        EndPointNegotiateFinishedRequestView {
            selected_monitor_id: self.selected_monitor_id@,
            expected_frame_rate: self.expected_frame_rate,
        }
    }
}

impl EndPointNegotiateFinishedRequestView {
    /// Every length in the record can be written as a `u64`.
    pub open spec fn fits(self) -> bool {
        &&& encode_utf8(self.selected_monitor_id).len() <= u64::MAX
    }
}

/// Confirms that capture and encoding have started.
#[derive(Clone, Copy, Debug, PartialEq, Eq, Structural)]
pub struct EndPointNegotiateFinishedResponse {}

impl View for EndPointNegotiateFinishedResponse {
    type V = EndPointNegotiateFinishedResponse;

    open spec fn view(&self) -> EndPointNegotiateFinishedResponse {
        *self
    }
}

/// One encoded picture. Key frames of H.264 and HEVC carry the parameter
/// sets; other frames carry none.
#[derive(Clone, Debug, PartialEq, Eq)]
pub struct EndPointVideoFrame {
    pub sps: Option<Vec<u8>>,
    pub pps: Option<Vec<u8>>,
    pub buffer: Vec<u8>,
}

/// The view of [`EndPointVideoFrame`].
pub struct EndPointVideoFrameView {
    pub sps: Option<Seq<u8>>,
    pub pps: Option<Seq<u8>>,
    pub buffer: Seq<u8>,
}

impl View for EndPointVideoFrame {
    type V = EndPointVideoFrameView;

    open spec fn view(&self) -> EndPointVideoFrameView {
        EndPointVideoFrameView {
            sps: opt_bytes_view(self.sps),
            pps: opt_bytes_view(self.pps),
            buffer: self.buffer@,
        }
    }
}

impl EndPointVideoFrameView {
    /// Every length in the record can be written as a `u64`.
    pub open spec fn fits(self) -> bool {
        &&& (self.sps matches Some(b) ==> b.len() <= u64::MAX)
        &&& (self.pps matches Some(b) ==> b.len() <= u64::MAX)
        &&& self.buffer.len() <= u64::MAX
    }
}

/// One encoded block of audio: the bytes, the number of samples per channel,
/// and the microseconds since the session began.
#[derive(Clone, Debug, PartialEq, Eq)]
pub struct EndPointAudioFrame {
    pub buffer: Vec<u8>,
    pub frame_size_per_channel: u16,
    pub elapsed: u128,
}

/// The view of [`EndPointAudioFrame`].
pub struct EndPointAudioFrameView {
    pub buffer: Seq<u8>,
    pub frame_size_per_channel: u16,
    pub elapsed: u128,
}

impl View for EndPointAudioFrame {
    type V = EndPointAudioFrameView;

    open spec fn view(&self) -> EndPointAudioFrameView {
        EndPointAudioFrameView {
            buffer: self.buffer@,
            frame_size_per_channel: self.frame_size_per_channel,
            elapsed: self.elapsed,
        }
    }
}

impl EndPointAudioFrameView {
    /// Every length in the record can be written as a `u64`.
    pub open spec fn fits(self) -> bool {
        &&& self.buffer.len() <= u64::MAX
    }
}

/// A mouse button, or none of them.
#[derive(Clone, Copy, Debug, PartialEq, Eq, Structural)]
pub enum MouseKey {
    NoButton,
    Left,
    Right,
    Wheel,
}

impl View for MouseKey {
    type V = MouseKey;

    open spec fn view(&self) -> MouseKey {
        *self
    }
}

/// A key of the keyboard, named by its position on a US layout.
#[derive(Clone, Copy, Debug, PartialEq, Eq, Structural)]
pub enum KeyboardKey {
    A,
    B,
    C,
    D,
    E,
    F,
    G,
    H,
    I,
    J,
    K,
    L,
    M,
    N,
    O,
    P,
    Q,
    R,
    S,
    T,
    U,
    V,
    W,
    X,
    Y,
    Z,
    Digit0,
    Digit1,
    Digit2,
    Digit3,
    Digit4,
    Digit5,
    Digit6,
    Digit7,
    Digit8,
    Digit9,
    BackQuote,
    Minus,
    Equal,
    BracketLeft,
    BracketRight,
    BackSlash,
    Semicolon,
    Quote,
    Comma,
    Period,
    Slash,
    Escape,
    Tab,
    CapsLock,
    Space,
    Enter,
    Backspace,
    Insert,
    Delete,
    Home,
    End,
    PageUp,
    PageDown,
    ArrowLeft,
    ArrowRight,
    ArrowUp,
    ArrowDown,
    LeftShift,
    RightShift,
    LeftControl,
    RightControl,
    LeftAlt,
    RightAlt,
    LeftMeta,
    RightMeta,
    F1,
    F2,
    F3,
    F4,
    F5,
    F6,
    F7,
    F8,
    F9,
    F10,
    F11,
    F12,
    PrintScreen,
    ScrollLock,
    Pause,
    NumLock,
    Numpad0,
    Numpad1,
    Numpad2,
    Numpad3,
    Numpad4,
    Numpad5,
    Numpad6,
    Numpad7,
    Numpad8,
    Numpad9,
    NumpadAdd,
    NumpadSubtract,
    NumpadMultiply,
    NumpadDivide,
    NumpadDecimal,
    NumpadEnter,
}

impl View for KeyboardKey {
    type V = KeyboardKey;

    open spec fn view(&self) -> KeyboardKey {
        *self
    }
}

/// What the mouse did. A position is a pair of coordinates normalised to the
/// monitor, each between 0 and 1, carried as the bit pattern of an IEEE 754
/// single; the amount of a scroll is carried the same way.
#[derive(Clone, Copy, Debug, PartialEq, Eq, Structural)]
pub enum MouseEvent {
    MouseUp(MouseKey, u32, u32),
    MouseDown(MouseKey, u32, u32),
    MouseMove(MouseKey, u32, u32),
    MouseScrollWheel(u32),
}

impl View for MouseEvent {
    type V = MouseEvent;

    open spec fn view(&self) -> MouseEvent {
        *self
    }
}

/// What the keyboard did.
#[derive(Clone, Copy, Debug, PartialEq, Eq, Structural)]
pub enum KeyboardEvent {
    KeyUp(KeyboardKey),
    KeyDown(KeyboardKey),
}

impl View for KeyboardEvent {
    type V = KeyboardEvent;

    open spec fn view(&self) -> KeyboardEvent {
        *self
    }
}

/// An event of the mouse or of the keyboard.
#[derive(Clone, Copy, Debug, PartialEq, Eq, Structural)]
pub enum InputEvent {
    Mouse(MouseEvent),
    Keyboard(KeyboardEvent),
}

impl View for InputEvent {
    type V = InputEvent;

    open spec fn view(&self) -> InputEvent {
        *self
    }
}

/// One input event of the controlling side.
#[derive(Clone, Copy, Debug, PartialEq, Eq, Structural)]
pub struct EndPointInput {
    pub event: InputEvent,
}

impl View for EndPointInput {
    type V = EndPointInput;

    open spec fn view(&self) -> EndPointInput {
        *self
    }
}

/// Asks for the file at `path`; `id` names the transfer.
#[derive(Clone, Debug, PartialEq, Eq)]
pub struct EndPointDownloadFileRequest {
    pub id: String,
    pub path: String,
}

/// The view of [`EndPointDownloadFileRequest`].
pub struct EndPointDownloadFileRequestView {
    pub id: Seq<char>,
    pub path: Seq<char>,
}

impl View for EndPointDownloadFileRequest {
    type V = EndPointDownloadFileRequestView;

    open spec fn view(&self) -> EndPointDownloadFileRequestView {
        EndPointDownloadFileRequestView {
            id: self.id@,
            path: self.path@,
        }
    }
}

impl EndPointDownloadFileRequestView {
    /// Every length in the record can be written as a `u64`.
    pub open spec fn fits(self) -> bool {
        &&& encode_utf8(self.id).len() <= u64::MAX
        &&& encode_utf8(self.path).len() <= u64::MAX
    }
}

/// The size in bytes of the file that is about to be sent.
#[derive(Clone, Copy, Debug, PartialEq, Eq, Structural)]
pub struct EndPointDownloadFileReply {
    pub size: u64,
}

impl View for EndPointDownloadFileReply {
    type V = EndPointDownloadFileReply;

    open spec fn view(&self) -> EndPointDownloadFileReply {
        *self
    }
}

/// Announces a file that the sender is about to push.
#[derive(Clone, Debug, PartialEq, Eq)]
pub struct EndPointSendFileRequest {
    pub id: String,
    pub filename: String,
    pub size: u64,
}

/// The view of [`EndPointSendFileRequest`].
pub struct EndPointSendFileRequestView {
    pub id: Seq<char>,
    pub filename: Seq<char>,
    pub size: u64,
}

impl View for EndPointSendFileRequest {
    type V = EndPointSendFileRequestView;

    open spec fn view(&self) -> EndPointSendFileRequestView {
        EndPointSendFileRequestView {
            id: self.id@,
            filename: self.filename@,
            size: self.size,
        }
    }
}

impl EndPointSendFileRequestView {
    /// Every length in the record can be written as a `u64`.
    pub open spec fn fits(self) -> bool {
        &&& encode_utf8(self.id).len() <= u64::MAX
        &&& encode_utf8(self.filename).len() <= u64::MAX
    }
}

/// Accepts an announced file.
#[derive(Clone, Copy, Debug, PartialEq, Eq, Structural)]
pub struct EndPointSendFileReply {}

impl View for EndPointSendFileReply {
    type V = EndPointSendFileReply;

    open spec fn view(&self) -> EndPointSendFileReply {
        *self
    }
}

/// The next bytes of the file of transfer `id`.
#[derive(Clone, Debug, PartialEq, Eq)]
pub struct EndPointFileTransferBlock {
    pub id: String,
    pub data: Vec<u8>,
}

/// The view of [`EndPointFileTransferBlock`].
pub struct EndPointFileTransferBlockView {
    pub id: Seq<char>,
    pub data: Seq<u8>,
}

impl View for EndPointFileTransferBlock {
    type V = EndPointFileTransferBlockView;

    open spec fn view(&self) -> EndPointFileTransferBlockView {
        EndPointFileTransferBlockView {
            id: self.id@,
            data: self.data@,
        }
    }
}

impl EndPointFileTransferBlockView {
    /// Every length in the record can be written as a `u64`.
    pub open spec fn fits(self) -> bool {
        &&& encode_utf8(self.id).len() <= u64::MAX
        &&& self.data.len() <= u64::MAX
    }
}

/// Ends transfer `id` abnormally.
#[derive(Clone, Debug, PartialEq, Eq)]
pub struct EndPointFileTransferError {
    pub id: String,
}

/// The view of [`EndPointFileTransferError`].
pub struct EndPointFileTransferErrorView {
    pub id: Seq<char>,
}

impl View for EndPointFileTransferError {
    type V = EndPointFileTransferErrorView;

    open spec fn view(&self) -> EndPointFileTransferErrorView {
        EndPointFileTransferErrorView {
            id: self.id@,
        }
    }
}

impl EndPointFileTransferErrorView {
    /// Every length in the record can be written as a `u64`.
    pub open spec fn fits(self) -> bool {
        &&& encode_utf8(self.id).len() <= u64::MAX
    }
}

/// What a packet carries.
#[derive(Clone, Debug, PartialEq, Eq)]
pub enum EndPointMessage {
    Error,
    NegotiateVisitDesktopParamsRequest(EndPointNegotiateVisitDesktopParamsRequest),
    NegotiateVisitDesktopParamsResponse(EndPointNegotiateVisitDesktopParamsResponse),
    NegotiateSelectMonitorRequest(EndPointNegotiateSelectMonitorRequest),
    NegotiateSelectMonitorResponse(EndPointNegotiateSelectMonitorResponse),
    NegotiateFinishedRequest(EndPointNegotiateFinishedRequest),
    NegotiateFinishedResponse(EndPointNegotiateFinishedResponse),
    VideoFrame(EndPointVideoFrame),
    AudioFrame(EndPointAudioFrame),
    Input(EndPointInput),
    HandshakeRequest(EndPointHandshakeRequest),
    HandshakeResponse(EndPointHandshakeResponse),
    DownloadFileRequest(EndPointDownloadFileRequest),
    DownloadFileReply(EndPointDownloadFileReply),
    SendFileRequest(EndPointSendFileRequest),
    SendFileReply(EndPointSendFileReply),
    FileTransferBlock(EndPointFileTransferBlock),
    FileTransferError(EndPointFileTransferError),
}

/// The view of [`EndPointMessage`].
pub enum EndPointMessageView {
    Error,
    NegotiateVisitDesktopParamsRequest(EndPointNegotiateVisitDesktopParamsRequestView),
    NegotiateVisitDesktopParamsResponse(EndPointNegotiateVisitDesktopParamsResponseView),
    NegotiateSelectMonitorRequest(EndPointNegotiateSelectMonitorRequest),
    NegotiateSelectMonitorResponse(EndPointNegotiateSelectMonitorResponseView),
    NegotiateFinishedRequest(EndPointNegotiateFinishedRequestView),
    NegotiateFinishedResponse(EndPointNegotiateFinishedResponse),
    VideoFrame(EndPointVideoFrameView),
    AudioFrame(EndPointAudioFrameView),
    Input(EndPointInput),
    HandshakeRequest(EndPointHandshakeRequestView),
    HandshakeResponse(EndPointHandshakeResponse),
    DownloadFileRequest(EndPointDownloadFileRequestView),
    DownloadFileReply(EndPointDownloadFileReply),
    SendFileRequest(EndPointSendFileRequestView),
    SendFileReply(EndPointSendFileReply),
    FileTransferBlock(EndPointFileTransferBlockView),
    FileTransferError(EndPointFileTransferErrorView),
}

impl View for EndPointMessage {
    type V = EndPointMessageView;

    open spec fn view(&self) -> EndPointMessageView {
        match *self {
            EndPointMessage::Error => EndPointMessageView::Error,
            EndPointMessage::NegotiateVisitDesktopParamsRequest(m) => {
                EndPointMessageView::NegotiateVisitDesktopParamsRequest(m@)
            },
            EndPointMessage::NegotiateVisitDesktopParamsResponse(m) => {
                EndPointMessageView::NegotiateVisitDesktopParamsResponse(m@)
            },
            EndPointMessage::NegotiateSelectMonitorRequest(m) => {
                EndPointMessageView::NegotiateSelectMonitorRequest(m)
            },
            EndPointMessage::NegotiateSelectMonitorResponse(m) => {
                EndPointMessageView::NegotiateSelectMonitorResponse(m@)
            },
            EndPointMessage::NegotiateFinishedRequest(m) => {
                EndPointMessageView::NegotiateFinishedRequest(m@)
            },
            EndPointMessage::NegotiateFinishedResponse(m) => {
                EndPointMessageView::NegotiateFinishedResponse(m)
            },
            EndPointMessage::VideoFrame(m) => EndPointMessageView::VideoFrame(m@),
            EndPointMessage::AudioFrame(m) => EndPointMessageView::AudioFrame(m@),
            EndPointMessage::Input(m) => EndPointMessageView::Input(m),
            EndPointMessage::HandshakeRequest(m) => EndPointMessageView::HandshakeRequest(m@),
            EndPointMessage::HandshakeResponse(m) => EndPointMessageView::HandshakeResponse(m),
            EndPointMessage::DownloadFileRequest(m) => EndPointMessageView::DownloadFileRequest(m@),
            EndPointMessage::DownloadFileReply(m) => EndPointMessageView::DownloadFileReply(m),
            EndPointMessage::SendFileRequest(m) => EndPointMessageView::SendFileRequest(m@),
            EndPointMessage::SendFileReply(m) => EndPointMessageView::SendFileReply(m),
            EndPointMessage::FileTransferBlock(m) => EndPointMessageView::FileTransferBlock(m@),
            EndPointMessage::FileTransferError(m) => EndPointMessageView::FileTransferError(m@),
        }
    }
}

impl EndPointMessageView {
    /// Every length in the message can be written as a `u64`.
    pub open spec fn fits(self) -> bool {
        match self {
            EndPointMessageView::NegotiateVisitDesktopParamsRequest(m) => m.fits(),
            EndPointMessageView::NegotiateVisitDesktopParamsResponse(m) => m.fits(),
            EndPointMessageView::NegotiateSelectMonitorResponse(m) => m.fits(),
            EndPointMessageView::NegotiateFinishedRequest(m) => m.fits(),
            EndPointMessageView::VideoFrame(m) => m.fits(),
            EndPointMessageView::AudioFrame(m) => m.fits(),
            EndPointMessageView::HandshakeRequest(m) => m.fits(),
            EndPointMessageView::DownloadFileRequest(m) => m.fits(),
            EndPointMessageView::SendFileRequest(m) => m.fits(),
            EndPointMessageView::FileTransferBlock(m) => m.fits(),
            EndPointMessageView::FileTransferError(m) => m.fits(),
            _ => true,
        }
    }
}

/// The role of a packet in the exchange.
#[derive(Clone, Copy, Debug, PartialEq, Eq, Structural)]
pub enum EndPointMessagePacketType {
    Request,
    Response,
    Push,
}

impl View for EndPointMessagePacketType {
    type V = EndPointMessagePacketType;

    open spec fn view(&self) -> EndPointMessagePacketType {
        *self
    }
}

/// The envelope of every message: its role, the call it belongs to, and the
/// message itself.
#[derive(Clone, Debug, PartialEq, Eq)]
pub struct EndPointMessagePacket {
    pub typ: EndPointMessagePacketType,
    pub call_id: Option<u16>,
    pub message: EndPointMessage,
}

/// The view of [`EndPointMessagePacket`].
pub struct EndPointMessagePacketView {
    pub typ: EndPointMessagePacketType,
    pub call_id: Option<u16>,
    pub message: EndPointMessageView,
}

impl View for EndPointMessagePacket {
    type V = EndPointMessagePacketView;

    open spec fn view(&self) -> EndPointMessagePacketView {
        EndPointMessagePacketView { typ: self.typ, call_id: self.call_id, message: self.message@ }
    }
}

impl EndPointMessagePacketView {
    /// Every length in the packet can be written as a `u64`.
    pub open spec fn fits(self) -> bool {
        self.message.fits()
    }

    /// A request and a response name their call; a push names none.
    pub open spec fn well_formed(self) -> bool {
        match self.typ {
            EndPointMessagePacketType::Request => self.call_id is Some,
            EndPointMessagePacketType::Response => self.call_id is Some,
            EndPointMessagePacketType::Push => self.call_id is None,
        }
    }
}

} // verus!
