//! The exchange that follows the handshake: the two peers agree on codecs and
//! audio parameters, the active peer picks a display, and capture starts.

use vstd::prelude::*;
use crate::codec::negotiate::audio_sample_rate_code;
use crate::message::{
    monitor_views, AudioSampleFormat, AudioSampleRate,
    EndPointNegotiateVisitDesktopParamsRequest, EndPointNegotiateVisitDesktopParamsRequestView,
    EndPointNegotiateVisitDesktopParamsResponse, EndPointNegotiateVisitDesktopParamsResponseView,
    MonitorDescription, MonitorDescriptionView, VideoCodec,
};

verus! {

/// Why a negotiation failed. The initiator tears the session down.
#[derive(Clone, Copy, Debug, PartialEq, Eq, Structural)]
pub enum NegotiationError {
    /// The passive peer supports none of the codecs on offer.
    NoCommonVideoCodec,
    /// The passive peer supports no sample rate up to the active peer's highest.
    NoCommonSampleRate,
    /// The passive peer supports none of the sample formats on offer.
    NoCommonSampleFormat,
    /// Neither the wanted display nor a primary display is there.
    MonitorNotFound,
    /// The frame rate that capture would run at is zero.
    InvalidFrameRate,
    /// A step was taken out of turn.
    OutOfTurn,
    /// The reply to a step is of another kind than the step asks for.
    UnexpectedReply,
    /// The passive peer chose what was not on offer.
    AnswerOutsideOffer,
}

/// Where a negotiation stands.
#[derive(Clone, Copy, Debug, PartialEq, Eq, Structural)]
pub enum NegotiationState {
    /// Nothing has been exchanged.
    Idle,
    /// The codec and audio parameters are being agreed on.
    NegotiateParams,
    /// The display is being picked.
    SelectMonitor,
    /// The choice was confirmed; capture and encoding may start.
    Finished,
    /// Media is flowing.
    Streaming,
    /// A step failed. Nothing leads out of this state.
    Failed,
}

/// What moves a negotiation on.
#[derive(Clone, Copy, Debug, PartialEq, Eq, Structural)]
pub enum NegotiationEvent {
    /// The exchange of parameters has begun.
    Begin,
    /// Both peers hold the agreed parameters.
    ParamsAgreed,
    /// The display was picked and the finishing request was confirmed.
    Finish,
    /// The first pipelines run.
    StreamStarted,
    /// A step failed with a transport or validation error.
    Fault,
}

/// The state that follows `state` on `event`. The steps come in one order
/// only; an event out of turn is a fault like any other.
pub open spec fn next_state(state: NegotiationState, event: NegotiationEvent) -> NegotiationState {
    match (state, event) {
        (NegotiationState::Idle, NegotiationEvent::Begin) => NegotiationState::NegotiateParams,
        (NegotiationState::NegotiateParams, NegotiationEvent::ParamsAgreed) => {
            NegotiationState::SelectMonitor
        },
        (NegotiationState::SelectMonitor, NegotiationEvent::Finish) => NegotiationState::Finished,
        (NegotiationState::Finished, NegotiationEvent::StreamStarted) => {
            NegotiationState::Streaming
        },
        _ => NegotiationState::Failed,
    }
}

impl NegotiationState {
    /// Whether media may be produced and is accepted in this state.
    pub open spec fn media_allowed(self) -> bool {
        self == NegotiationState::Finished || self == NegotiationState::Streaming
    }

    /// Moves on by one event.
    pub fn advance(self, event: NegotiationEvent) -> (next: NegotiationState)
        ensures
            next == next_state(self, event),
    {
        match (self, event) {
            (NegotiationState::Idle, NegotiationEvent::Begin) => NegotiationState::NegotiateParams,
            (NegotiationState::NegotiateParams, NegotiationEvent::ParamsAgreed) => {
                NegotiationState::SelectMonitor
            },
            (NegotiationState::SelectMonitor, NegotiationEvent::Finish) => {
                NegotiationState::Finished
            },
            (NegotiationState::Finished, NegotiationEvent::StreamStarted) => {
                NegotiationState::Streaming
            },
            _ => NegotiationState::Failed,
        }
    }

    /// Whether media may be produced and is accepted in this state.
    pub fn allows_media(self) -> (b: bool)
        ensures
            b == self.media_allowed(),
    {
        match self {
            NegotiationState::Finished => true,
            NegotiationState::Streaming => true,
            _ => false,
        }
    }
}

/// Media is allowed only after the three steps were taken in order, and a
/// failed negotiation stays failed.
pub proof fn lemma_media_only_after_finish(state: NegotiationState, event: NegotiationEvent)
    ensures
        next_state(NegotiationState::Failed, event) == NegotiationState::Failed,
        !state.media_allowed() && next_state(state, event).media_allowed() ==> state
            == NegotiationState::SelectMonitor && event == NegotiationEvent::Finish,
        next_state(state, event) == NegotiationState::SelectMonitor ==> state
            == NegotiationState::NegotiateParams,
        next_state(state, event) == NegotiationState::NegotiateParams ==> state
            == NegotiationState::Idle,
{
}

/// The first item of `wanted` that `supported` holds.
pub open spec fn first_supported<T>(wanted: Seq<T>, supported: Seq<T>) -> Option<T>
    decreases wanted.len(),
{
    if wanted.len() == 0 {
        None
    } else if supported.contains(wanted[0]) {
        Some(wanted[0])
    } else {
        first_supported(wanted.drop_first(), supported)
    }
}

/// `first_supported` is the item at the least index of `wanted` that
/// `supported` holds, and nothing if there is no such index.
pub proof fn lemma_first_supported<T>(wanted: Seq<T>, supported: Seq<T>)
    ensures
        match first_supported(wanted, supported) {
            Some(item) => exists|i: int|
                0 <= i < wanted.len() && wanted[i] == item && supported.contains(item) && forall|
                    j: int,
                |
                    0 <= j < i ==> !supported.contains(#[trigger] wanted[j]),
            None => {
                forall|i: int| 0 <= i < wanted.len() ==> !supported.contains(#[trigger] wanted[i])
            },
        },
    decreases wanted.len(),
{
    if wanted.len() > 0 {
        let tail = wanted.drop_first();
        if supported.contains(wanted[0]) {
            assert(forall|j: int| 0 <= j < 0 ==> !supported.contains(#[trigger] wanted[j]));
        } else {
            lemma_first_supported(tail, supported);
            match first_supported(tail, supported) {
                Some(item) => {
                    let i = choose|i: int|
                        0 <= i < tail.len() && tail[i] == item && supported.contains(item)
                            && forall|j: int|
                            0 <= j < i ==> !supported.contains(#[trigger] tail[j]);
                    assert(wanted[i + 1] == item);
                    assert forall|j: int| 0 <= j < i + 1 implies !supported.contains(
                        #[trigger] wanted[j],
                    ) by {
                        if j > 0 {
                            assert(tail[j - 1] == wanted[j]);
                        }
                    }
                },
                None => {
                    assert forall|i: int| 0 <= i < wanted.len() implies !supported.contains(
                        #[trigger] wanted[i],
                    ) by {
                        if i > 0 {
                            assert(tail[i - 1] == wanted[i]);
                        }
                    }
                },
            }
        }
    }
}

/// Whether `supported` holds `codec`.
pub fn supports_codec(supported: &Vec<VideoCodec>, codec: VideoCodec) -> (b: bool)
    ensures
        b == supported@.contains(codec),
{
    let mut i: usize = 0;
    while i < supported.len()
        invariant
            i <= supported@.len(),
            forall|j: int| 0 <= j < i ==> supported@[j] != codec,
        decreases supported@.len() - i,
    {
        if supported[i] == codec {
            return true;
        }
        i = i + 1;
    }
    false
}

/// Whether `supported` holds `format`.
pub fn supports_format(supported: &Vec<AudioSampleFormat>, format: AudioSampleFormat) -> (b: bool)
    ensures
        b == supported@.contains(format),
{
    let mut i: usize = 0;
    while i < supported.len()
        invariant
            i <= supported@.len(),
            forall|j: int| 0 <= j < i ==> supported@[j] != format,
        decreases supported@.len() - i,
    {
        if supported[i] == format {
            return true;
        }
        i = i + 1;
    }
    false
}

/// The first of the codecs on offer, in the order of the offer, that this
/// side supports.
pub fn choose_video_codec(wanted: &Vec<VideoCodec>, supported: &Vec<VideoCodec>) -> (r: Option<
    VideoCodec,
>)
    ensures
        r == first_supported(wanted@, supported@),
{
    let mut i: usize = 0;
    assert(wanted@.skip(0) =~= wanted@);
    while i < wanted.len()
        invariant
            i <= wanted@.len(),
            first_supported(wanted@, supported@) == first_supported(
                wanted@.skip(i as int),
                supported@,
            ),
        decreases wanted@.len() - i,
    {
        let ghost here = wanted@.skip(i as int);
        assert(here[0] == wanted@[i as int]);
        assert(here.drop_first() =~= wanted@.skip(i + 1));
        if supports_codec(supported, wanted[i]) {
            return Some(wanted[i]);
        }
        i = i + 1;
    }
    assert(wanted@.skip(i as int).len() == 0);
    None
}

/// The first of the sample formats on offer, in the order of the offer, that
/// this side supports.
pub fn choose_sample_format(
    wanted: &Vec<AudioSampleFormat>,
    supported: &Vec<AudioSampleFormat>,
) -> (r: Option<AudioSampleFormat>)
    ensures
        r == first_supported(wanted@, supported@),
{
    let mut i: usize = 0;
    assert(wanted@.skip(0) =~= wanted@);
    while i < wanted.len()
        invariant
            i <= wanted@.len(),
            first_supported(wanted@, supported@) == first_supported(
                wanted@.skip(i as int),
                supported@,
            ),
        decreases wanted@.len() - i,
    {
        let ghost here = wanted@.skip(i as int);
        assert(here[0] == wanted@[i as int]);
        assert(here.drop_first() =~= wanted@.skip(i + 1));
        if supports_format(supported, wanted[i]) {
            return Some(wanted[i]);
        }
        i = i + 1;
    }
    assert(wanted@.skip(i as int).len() == 0);
    None
}

/// `rate` is the highest of the rates in `supported` that do not exceed `max`.
pub open spec fn is_highest_rate_upto(
    supported: Seq<AudioSampleRate>,
    max: AudioSampleRate,
    rate: AudioSampleRate,
) -> bool {
    &&& supported.contains(rate)
    &&& audio_sample_rate_code(rate) <= audio_sample_rate_code(max)
    &&& forall|i: int|
        0 <= i < supported.len() && audio_sample_rate_code(#[trigger] supported[i])
            <= audio_sample_rate_code(max) ==> audio_sample_rate_code(supported[i])
            <= audio_sample_rate_code(rate)
}

/// No rate in `supported` is within `max`.
pub open spec fn no_rate_upto(supported: Seq<AudioSampleRate>, max: AudioSampleRate) -> bool {
    forall|i: int|
        0 <= i < supported.len() ==> audio_sample_rate_code(#[trigger] supported[i])
            > audio_sample_rate_code(max)
}

/// There is only one highest rate, so `choose_sample_rate` leaves no choice open.
pub proof fn lemma_highest_rate_is_unique(
    supported: Seq<AudioSampleRate>,
    max: AudioSampleRate,
    a: AudioSampleRate,
    b: AudioSampleRate,
)
    requires
        is_highest_rate_upto(supported, max, a),
        is_highest_rate_upto(supported, max, b),
    ensures
        a == b,
{
    let i = choose|i: int| 0 <= i < supported.len() && supported[i] == a;
    let j = choose|j: int| 0 <= j < supported.len() && supported[j] == b;
    assert(audio_sample_rate_code(supported[i]) <= audio_sample_rate_code(b));
    assert(audio_sample_rate_code(supported[j]) <= audio_sample_rate_code(a));
}

/// The highest sample rate that this side supports and that does not exceed
/// the other side's highest.
pub fn choose_sample_rate(supported: &Vec<AudioSampleRate>, max: AudioSampleRate) -> (r: Option<
    AudioSampleRate,
>)
    ensures
        match r {
            Some(rate) => is_highest_rate_upto(supported@, max, rate),
            None => no_rate_upto(supported@, max),
        },
{
    let limit: u32 = max.code();
    let mut best: Option<AudioSampleRate> = None;
    let mut i: usize = 0;
    while i < supported.len()
        invariant
            i <= supported@.len(),
            limit == audio_sample_rate_code(max),
            match best {
                Some(rate) => is_highest_rate_upto(supported@.take(i as int), max, rate),
                None => no_rate_upto(supported@.take(i as int), max),
            },
        decreases supported@.len() - i,
    {
        let candidate: AudioSampleRate = supported[i];
        let ghost before = supported@.take(i as int);
        let ghost after = supported@.take(i + 1);
        proof {
            assert(after =~= before.push(candidate));
            assert(forall|j: int| 0 <= j < before.len() ==> after[j] == before[j]);
        }
        let better: bool = candidate.code() <= limit && match best {
            Some(rate) => rate.code() < candidate.code(),
            None => true,
        };
        if better {
            best = Some(candidate);
            proof {
                assert(after[i as int] == candidate);
            }
        } else {
            proof {
                if let Some(rate) = best {
                    let k = choose|k: int| 0 <= k < before.len() && before[k] == rate;
                    assert(after[k] == rate);
                }
            }
        }
        i = i + 1;
    }
    assert(supported@.take(i as int) =~= supported@);
    best
}

/// What the passive peer can capture and encode, and the system it runs.
#[derive(Clone, Debug, PartialEq, Eq)]
pub struct LocalCapabilities {
    pub video_codecs: Vec<VideoCodec>,
    pub audio_sample_rates: Vec<AudioSampleRate>,
    pub audio_sample_formats: Vec<AudioSampleFormat>,
    pub audio_dual_channel: bool,
    pub os_type: String,
    pub os_version: String,
}

/// Why the passive peer cannot answer an offer, if it cannot: the first of
/// codec, sample rate and sample format that cannot be had decides.
pub open spec fn params_error(
    request: EndPointNegotiateVisitDesktopParamsRequestView,
    local: LocalCapabilities,
) -> Option<NegotiationError> {
    if first_supported(request.video_codecs, local.video_codecs@) is None {
        Some(NegotiationError::NoCommonVideoCodec)
    } else if no_rate_upto(local.audio_sample_rates@, request.audio_max_sample_rate) {
        Some(NegotiationError::NoCommonSampleRate)
    } else if first_supported(request.audio_sample_formats, local.audio_sample_formats@) is None {
        Some(NegotiationError::NoCommonSampleFormat)
    } else {
        None
    }
}

/// `response` is the answer of the passive peer to the offer: the first
/// codec on offer that it supports, the highest sample rate that it supports
/// within the offered maximum, the first sample format on offer that it
/// supports, two channels when both sides can, and the system it runs.
pub open spec fn params_agreed(
    request: EndPointNegotiateVisitDesktopParamsRequestView,
    local: LocalCapabilities,
    response: EndPointNegotiateVisitDesktopParamsResponseView,
) -> bool {
    &&& first_supported(request.video_codecs, local.video_codecs@) == Some(response.video_codec)
    &&& is_highest_rate_upto(
        local.audio_sample_rates@,
        request.audio_max_sample_rate,
        response.audio_sample_rate,
    )
    &&& first_supported(request.audio_sample_formats, local.audio_sample_formats@) == Some(
        response.audio_sample_format,
    )
    &&& response.audio_dual_channel == (request.audio_dual_channel && local.audio_dual_channel)
    &&& response.os_type == local.os_type@
    &&& response.os_version == local.os_version@
}

/// The answer of the passive peer to the parameters on offer.
pub fn negotiate_params(
    request: &EndPointNegotiateVisitDesktopParamsRequest,
    local: &LocalCapabilities,
) -> (r: Result<EndPointNegotiateVisitDesktopParamsResponse, NegotiationError>)
    ensures
        match params_error(request@, *local) {
            Some(e) => r matches Err(f) && f == e,
            None => r matches Ok(response) && params_agreed(request@, *local, response@),
        },
{
    let video_codec: VideoCodec = match choose_video_codec(
        &request.video_codecs,
        &local.video_codecs,
    ) {
        Some(codec) => codec,
        None => {
            return Err(NegotiationError::NoCommonVideoCodec);
        },
    };
    let audio_sample_rate: AudioSampleRate = match choose_sample_rate(
        &local.audio_sample_rates,
        request.audio_max_sample_rate,
    ) {
        Some(rate) => rate,
        None => {
            return Err(NegotiationError::NoCommonSampleRate);
        },
    };
    proof {
        let supported = local.audio_sample_rates@;
        let k = choose|k: int| 0 <= k < supported.len() && supported[k] == audio_sample_rate;
        assert(audio_sample_rate_code(supported[k]) <= audio_sample_rate_code(
            request.audio_max_sample_rate,
        ));
    }
    let audio_sample_format: AudioSampleFormat = match choose_sample_format(
        &request.audio_sample_formats,
        &local.audio_sample_formats,
    ) {
        Some(format) => format,
        None => {
            return Err(NegotiationError::NoCommonSampleFormat);
        },
    };
    Ok(
        EndPointNegotiateVisitDesktopParamsResponse {
            video_codec,
            audio_sample_rate,
            audio_sample_format,
            audio_dual_channel: request.audio_dual_channel && local.audio_dual_channel,
            os_type: local.os_type.clone(),
            os_version: local.os_version.clone(),
        },
    )
}

/// Whether an answer stays within what was offered: a codec and a sample
/// format from the offer, a sample rate within the maximum, and two channels
/// only if they were offered.
pub open spec fn answer_within_offer(
    request: EndPointNegotiateVisitDesktopParamsRequestView,
    response: EndPointNegotiateVisitDesktopParamsResponseView,
) -> bool {
    &&& request.video_codecs.contains(response.video_codec)
    &&& audio_sample_rate_code(response.audio_sample_rate) <= audio_sample_rate_code(
        request.audio_max_sample_rate,
    )
    &&& request.audio_sample_formats.contains(response.audio_sample_format)
    &&& response.audio_dual_channel ==> request.audio_dual_channel
}

/// The check that the active peer makes of the answer before it goes on.
pub fn accepts_params(
    request: &EndPointNegotiateVisitDesktopParamsRequest,
    response: &EndPointNegotiateVisitDesktopParamsResponse,
) -> (ok: bool)
    ensures
        ok == answer_within_offer(request@, response@),
{
    supports_codec(&request.video_codecs, response.video_codec)
        && response.audio_sample_rate.code() <= request.audio_max_sample_rate.code()
        && supports_format(&request.audio_sample_formats, response.audio_sample_format) && (
    !response.audio_dual_channel || request.audio_dual_channel)
}

/// Display `i` is the first with the id `id`.
pub open spec fn is_first_with_id(
    monitors: Seq<MonitorDescriptionView>,
    id: Seq<char>,
    i: int,
) -> bool {
    &&& 0 <= i < monitors.len()
    &&& monitors[i].id == id
    &&& forall|j: int| 0 <= j < i ==> (#[trigger] monitors[j]).id != id
}

/// Display `i` is the first that is primary.
pub open spec fn is_first_primary(monitors: Seq<MonitorDescriptionView>, i: int) -> bool {
    &&& 0 <= i < monitors.len()
    &&& monitors[i].is_primary
    &&& forall|j: int| 0 <= j < i ==> !(#[trigger] monitors[j]).is_primary
}

/// No display has the id `id`.
pub open spec fn no_monitor_with_id(monitors: Seq<MonitorDescriptionView>, id: Seq<char>) -> bool {
    forall|j: int| 0 <= j < monitors.len() ==> (#[trigger] monitors[j]).id != id
}

/// No display is primary.
pub open spec fn no_primary_monitor(monitors: Seq<MonitorDescriptionView>) -> bool {
    forall|j: int| 0 <= j < monitors.len() ==> !(#[trigger] monitors[j]).is_primary
}

/// Display `i` is the one to capture when `id` was asked for: the first with
/// that id, or, if none has it, the first primary display.
pub open spec fn is_selected_monitor(
    monitors: Seq<MonitorDescriptionView>,
    id: Seq<char>,
    i: int,
) -> bool {
    is_first_with_id(monitors, id, i) || (no_monitor_with_id(monitors, id) && is_first_primary(
        monitors,
        i,
    ))
}

/// The index of the display to capture when `id` was asked for, if there is one.
pub open spec fn selected_monitor(monitors: Seq<MonitorDescriptionView>, id: Seq<char>) -> Option<
    int,
> {
    if exists|i: int| is_selected_monitor(monitors, id, i) {
        Some(choose|i: int| is_selected_monitor(monitors, id, i))
    } else {
        None
    }
}

/// `selected_monitor` is the one index that `is_selected_monitor` holds of,
/// and there is none exactly when no display has the id and none is primary.
pub proof fn lemma_selected_monitor(monitors: Seq<MonitorDescriptionView>, id: Seq<char>, i: int)
    ensures
        is_selected_monitor(monitors, id, i) ==> selected_monitor(monitors, id) == Some(i),
        selected_monitor(monitors, id) == Some(i) ==> is_selected_monitor(monitors, id, i),
        no_monitor_with_id(monitors, id) && no_primary_monitor(monitors) ==> selected_monitor(
            monitors,
            id,
        ) is None,
{
    if is_selected_monitor(monitors, id, i) {
        let j = choose|j: int| is_selected_monitor(monitors, id, j);
        lemma_selected_monitor_is_unique(monitors, id, i, j);
    }
    if no_monitor_with_id(monitors, id) && no_primary_monitor(monitors) {
        assert forall|j: int| !is_selected_monitor(monitors, id, j) by {
            if 0 <= j < monitors.len() {
                assert(monitors[j].id != id && !monitors[j].is_primary);
            }
        }
    }
}

/// The index of the display to capture: the first with the wanted id, else
/// the first primary display, else none.
pub fn select_monitor(monitors: &Vec<MonitorDescription>, display_id: &str) -> (r: Option<usize>)
    ensures
        match selected_monitor(monitor_views(monitors@), display_id@) {
            Some(i) => r matches Some(k) && k == i && k < monitors@.len(),
            None => r is None,
        },
        r is None ==> no_monitor_with_id(monitor_views(monitors@), display_id@)
            && no_primary_monitor(monitor_views(monitors@)),
{
    let wanted: String = display_id.to_owned();
    let ghost views = monitor_views(monitors@);
    let mut i: usize = 0;
    while i < monitors.len()
        invariant
            i <= monitors@.len(),
            wanted@ == display_id@,
            views == monitor_views(monitors@),
            forall|j: int| 0 <= j < i ==> (#[trigger] views[j]).id != display_id@,
        decreases monitors@.len() - i,
    {
        if monitors[i].id == wanted {
            proof {
                assert(is_first_with_id(views, display_id@, i as int));
                lemma_selected_monitor(views, display_id@, i as int);
            }
            return Some(i);
        }
        i = i + 1;
    }
    let mut k: usize = 0;
    while k < monitors.len()
        invariant
            k <= monitors@.len(),
            views == monitor_views(monitors@),
            no_monitor_with_id(views, display_id@),
            forall|j: int| 0 <= j < k ==> !(#[trigger] views[j]).is_primary,
        decreases monitors@.len() - k,
    {
        if monitors[k].is_primary {
            proof {
                assert(is_first_primary(views, k as int));
                lemma_selected_monitor(views, display_id@, k as int);
            }
            return Some(k);
        }
        k = k + 1;
    }
    proof {
        lemma_selected_monitor(views, display_id@, 0);
    }
    None
}

/// What capture runs with once a display is chosen.
#[derive(Clone, Copy, Debug, PartialEq, Eq, Structural)]
pub struct CapturePlan {
    /// Index of the display in the list that was searched.
    pub monitor: usize,
    pub width: u16,
    pub height: u16,
    /// Frames per second: the expected rate, but no more than the display refreshes.
    pub fps: u8,
}

/// The lower of the expected frame rate and the display's refresh rate.
pub open spec fn clamped_frame_rate(expected: u8, refresh_rate: u8) -> u8 {
    if expected <= refresh_rate {
        expected
    } else {
        refresh_rate
    }
}

/// The lower of the expected frame rate and the display's refresh rate.
pub fn clamp_frame_rate(expected: u8, refresh_rate: u8) -> (fps: u8)
    ensures
        fps == clamped_frame_rate(expected, refresh_rate),
{
    if expected <= refresh_rate {
        expected
    } else {
        refresh_rate
    }
}

/// What capture runs with when display `id` was asked for at `expected_fps`
/// frames per second: the selected display, its size, and the expected frame
/// rate, but no more than the display refreshes. Without a display to
/// select, and at zero frames per second, capture cannot start.
pub open spec fn planned_capture(
    monitors: Seq<MonitorDescriptionView>,
    id: Seq<char>,
    expected_fps: u8,
) -> Result<CapturePlan, NegotiationError> {
    match selected_monitor(monitors, id) {
        None => Err(NegotiationError::MonitorNotFound),
        Some(i) => {
            let fps = clamped_frame_rate(expected_fps, monitors[i].frame_rate);
            if fps == 0 {
                Err(NegotiationError::InvalidFrameRate)
            } else {
                Ok(
                    CapturePlan {
                        monitor: i as usize,
                        width: monitors[i].width,
                        height: monitors[i].height,
                        fps,
                    },
                )
            }
        },
    }
}

/// Decides what to capture for a finishing request: the display, its size,
/// and the frame rate.
pub fn plan_capture(monitors: &Vec<MonitorDescription>, display_id: &str, expected_fps: u8) -> (r:
    Result<CapturePlan, NegotiationError>)
    ensures
        r == planned_capture(monitor_views(monitors@), display_id@, expected_fps),
        r matches Ok(plan) ==> plan.monitor < monitors@.len() && plan.fps > 0,
{
    let index: usize = match select_monitor(monitors, display_id) {
        Some(index) => index,
        None => {
            return Err(NegotiationError::MonitorNotFound);
        },
    };
    proof {
        assert(monitor_views(monitors@)[index as int] == monitors@[index as int]@);
    }
    let fps: u8 = clamp_frame_rate(expected_fps, monitors[index].frame_rate);
    if fps == 0 {
        return Err(NegotiationError::InvalidFrameRate);
    }
    Ok(
        CapturePlan {
            monitor: index,
            width: monitors[index].width,
            height: monitors[index].height,
            fps,
        },
    )
}

/// At most one display is the selected one, so `select_monitor` and
/// `plan_capture` leave no choice open.
pub proof fn lemma_selected_monitor_is_unique(
    monitors: Seq<MonitorDescriptionView>,
    id: Seq<char>,
    i: int,
    j: int,
)
    requires
        is_selected_monitor(monitors, id, i),
        is_selected_monitor(monitors, id, j),
    ensures
        i == j,
{
    if i < j {
        assert(monitors[i].id == id || monitors[i].is_primary);
    } else if j < i {
        assert(monitors[j].id == id || monitors[j].is_primary);
    }
}

} // verus!
