use mirrorx_core::endpoint::EndPoint;
use mirrorx_core::message::{
    AudioSampleFormat, AudioSampleRate, EndPointMessage, EndPointNegotiateFinishedRequest,
    EndPointNegotiateFinishedResponse, EndPointNegotiateSelectMonitorRequest,
    EndPointNegotiateSelectMonitorResponse, EndPointNegotiateVisitDesktopParamsRequest,
    EndPointNegotiateVisitDesktopParamsResponse, MonitorDescription, VideoCodec,
};
use mirrorx_core::negotiation::NegotiationEvent::{
    Begin, Fault, Finish, ParamsAgreed, StreamStarted,
};
use mirrorx_core::negotiation::NegotiationState::{
    Failed, Finished, Idle, NegotiateParams, SelectMonitor, Streaming,
};
use mirrorx_core::negotiation::{
    accepts_params, choose_sample_format, choose_sample_rate, choose_video_codec,
    clamp_frame_rate, negotiate_params, plan_capture, select_monitor, supports_codec,
    supports_format, CapturePlan, LocalCapabilities, NegotiationError,
};

fn offer() -> EndPointNegotiateVisitDesktopParamsRequest {
    EndPointNegotiateVisitDesktopParamsRequest {
        video_codecs: vec![VideoCodec::H264, VideoCodec::HEVC],
        audio_max_sample_rate: AudioSampleRate::HZ48000,
        audio_sample_formats: vec![AudioSampleFormat::I16, AudioSampleFormat::F32],
        audio_dual_channel: true,
    }
}

fn passive_caps() -> LocalCapabilities {
    LocalCapabilities {
        video_codecs: vec![VideoCodec::VP9, VideoCodec::HEVC, VideoCodec::H264],
        audio_sample_rates: vec![
            AudioSampleRate::HZ16000,
            AudioSampleRate::HZ48000,
            AudioSampleRate::HZ24000,
        ],
        audio_sample_formats: vec![AudioSampleFormat::F32],
        audio_dual_channel: true,
        os_type: "linux".to_string(),
        os_version: "6.1".to_string(),
    }
}

fn monitor(id: &str, primary: bool, rate: u8, width: u16) -> MonitorDescription {
    MonitorDescription {
        id: id.to_string(),
        name: format!("name of {}", id),
        frame_rate: rate,
        width,
        height: 1080,
        is_primary: primary,
        screen_shot: vec![1],
    }
}

#[test]
fn happy_path_negotiation_picks_h264_48khz_f32() {
    assert_eq!(
        negotiate_params(&offer(), &passive_caps()),
        Ok(EndPointNegotiateVisitDesktopParamsResponse {
            video_codec: VideoCodec::H264,
            audio_sample_rate: AudioSampleRate::HZ48000,
            audio_sample_format: AudioSampleFormat::F32,
            audio_dual_channel: true,
            os_type: "linux".to_string(),
            os_version: "6.1".to_string(),
        })
    );
    let monitors = vec![monitor("DISPLAY-0", true, 60, 1920)];
    assert_eq!(
        plan_capture(&monitors, "DISPLAY-0", 60),
        Ok(CapturePlan { monitor: 0, width: 1920, height: 1080, fps: 60 })
    );
}

#[test]
fn codec_follows_the_active_peers_preference() {
    let mut request = offer();
    request.video_codecs = vec![VideoCodec::VP8, VideoCodec::HEVC, VideoCodec::H264];
    let response = negotiate_params(&request, &passive_caps()).unwrap();
    assert_eq!(response.video_codec, VideoCodec::HEVC);
    assert_eq!(
        choose_video_codec(
            &vec![VideoCodec::VP9, VideoCodec::H264],
            &vec![VideoCodec::H264, VideoCodec::VP9]
        ),
        Some(VideoCodec::VP9)
    );
    assert_eq!(choose_video_codec(&vec![], &vec![VideoCodec::H264]), None);
    assert_eq!(choose_video_codec(&vec![VideoCodec::H264], &vec![]), None);
    assert!(supports_codec(&vec![VideoCodec::VP8, VideoCodec::VP9], VideoCodec::VP9));
    assert!(!supports_codec(&vec![VideoCodec::VP8, VideoCodec::VP9], VideoCodec::H264));
}

#[test]
fn sample_rate_is_the_highest_within_the_offered_maximum() {
    let rates = vec![
        AudioSampleRate::HZ16000,
        AudioSampleRate::HZ48000,
        AudioSampleRate::HZ24000,
        AudioSampleRate::HZ16000,
    ];
    assert_eq!(choose_sample_rate(&rates, AudioSampleRate::HZ48000), Some(AudioSampleRate::HZ48000));
    assert_eq!(choose_sample_rate(&rates, AudioSampleRate::HZ24000), Some(AudioSampleRate::HZ24000));
    assert_eq!(choose_sample_rate(&rates, AudioSampleRate::HZ16000), Some(AudioSampleRate::HZ16000));
    assert_eq!(choose_sample_rate(&rates, AudioSampleRate::HZ12000), None);
    assert_eq!(choose_sample_rate(&vec![], AudioSampleRate::HZ48000), None);
    let mut request = offer();
    request.audio_max_sample_rate = AudioSampleRate::HZ24000;
    assert_eq!(
        negotiate_params(&request, &passive_caps()).unwrap().audio_sample_rate,
        AudioSampleRate::HZ24000
    );
}

#[test]
fn sample_format_is_the_first_on_offer_that_is_supported() {
    assert_eq!(
        choose_sample_format(
            &vec![AudioSampleFormat::I16, AudioSampleFormat::F32, AudioSampleFormat::U16],
            &vec![AudioSampleFormat::U16, AudioSampleFormat::F32]
        ),
        Some(AudioSampleFormat::F32)
    );
    assert!(supports_format(&vec![AudioSampleFormat::U16], AudioSampleFormat::U16));
    assert!(!supports_format(&vec![AudioSampleFormat::U16], AudioSampleFormat::I16));
}

#[test]
fn two_channels_only_when_both_sides_can() {
    let mut request = offer();
    let mut local = passive_caps();
    assert!(negotiate_params(&request, &local).unwrap().audio_dual_channel);
    request.audio_dual_channel = false;
    assert!(!negotiate_params(&request, &local).unwrap().audio_dual_channel);
    request.audio_dual_channel = true;
    local.audio_dual_channel = false;
    assert!(!negotiate_params(&request, &local).unwrap().audio_dual_channel);
}

#[test]
fn negotiation_errors_come_in_a_fixed_order() {
    let mut local = passive_caps();
    local.video_codecs = vec![VideoCodec::VP8];
    local.audio_sample_rates = vec![];
    local.audio_sample_formats = vec![];
    assert_eq!(negotiate_params(&offer(), &local), Err(NegotiationError::NoCommonVideoCodec));
    local.video_codecs = vec![VideoCodec::HEVC];
    assert_eq!(negotiate_params(&offer(), &local), Err(NegotiationError::NoCommonSampleRate));
    local.audio_sample_rates = vec![AudioSampleRate::HZ8000];
    assert_eq!(negotiate_params(&offer(), &local), Err(NegotiationError::NoCommonSampleFormat));
    local.audio_sample_formats = vec![AudioSampleFormat::I16];
    let response = negotiate_params(&offer(), &local).unwrap();
    assert_eq!(response.video_codec, VideoCodec::HEVC);
    assert_eq!(response.audio_sample_rate, AudioSampleRate::HZ8000);
    assert_eq!(response.audio_sample_format, AudioSampleFormat::I16);
}

#[test]
fn active_side_checks_the_answer_against_its_offer() {
    let good = negotiate_params(&offer(), &passive_caps()).unwrap();
    assert!(accepts_params(&offer(), &good));
    let mut bad = good.clone();
    bad.video_codec = VideoCodec::VP9;
    assert!(!accepts_params(&offer(), &bad));
    let mut bad = good.clone();
    bad.audio_sample_format = AudioSampleFormat::U16;
    assert!(!accepts_params(&offer(), &bad));
    let mut request = offer();
    request.audio_max_sample_rate = AudioSampleRate::HZ24000;
    assert!(!accepts_params(&request, &good));
    request = offer();
    request.audio_dual_channel = false;
    assert!(!accepts_params(&request, &good));
    let mut mono = good.clone();
    mono.audio_dual_channel = false;
    assert!(accepts_params(&request, &mono));
}

#[test]
fn monitor_is_the_wanted_one_or_else_the_primary() {
    let monitors = vec![
        monitor("A", false, 60, 1),
        monitor("B", true, 60, 2),
        monitor("A", true, 60, 3),
        monitor("C", true, 60, 4),
    ];
    assert_eq!(select_monitor(&monitors, "A"), Some(0));
    assert_eq!(select_monitor(&monitors, "B"), Some(1));
    assert_eq!(select_monitor(&monitors, "C"), Some(3));
    assert_eq!(select_monitor(&monitors, "D"), Some(1));
    assert_eq!(select_monitor(&monitors, ""), Some(1));
    assert_eq!(select_monitor(&monitors[..1].to_vec(), "D"), None);
    assert_eq!(select_monitor(&vec![], "A"), None);
}

#[test]
fn frame_rate_is_clamped_to_the_refresh_rate() {
    assert_eq!(clamp_frame_rate(60, 144), 60);
    assert_eq!(clamp_frame_rate(144, 60), 60);
    assert_eq!(clamp_frame_rate(60, 60), 60);
    assert_eq!(clamp_frame_rate(0, 60), 0);
    assert_eq!(clamp_frame_rate(255, 255), 255);
    let monitors = vec![monitor("A", false, 30, 800), monitor("B", true, 0, 640)];
    assert_eq!(
        plan_capture(&monitors, "A", 60),
        Ok(CapturePlan { monitor: 0, width: 800, height: 1080, fps: 30 })
    );
    assert_eq!(plan_capture(&monitors, "A", 0), Err(NegotiationError::InvalidFrameRate));
    assert_eq!(plan_capture(&monitors, "B", 60), Err(NegotiationError::InvalidFrameRate));
    assert_eq!(plan_capture(&monitors[..1].to_vec(), "Z", 60), Err(NegotiationError::MonitorNotFound));
}

#[test]
fn negotiation_takes_its_steps_in_order() {
    assert_eq!(Idle.advance(Begin), NegotiateParams);
    assert_eq!(NegotiateParams.advance(ParamsAgreed), SelectMonitor);
    assert_eq!(SelectMonitor.advance(Finish), Finished);
    assert_eq!(Finished.advance(StreamStarted), Streaming);
    let states = [Idle, NegotiateParams, SelectMonitor, Finished, Streaming, Failed];
    let events = [Begin, ParamsAgreed, Finish, StreamStarted, Fault];
    let mut moves = 0;
    for state in states {
        assert_eq!(state.advance(Fault), Failed);
        for event in events {
            assert_eq!(Failed.advance(event), Failed);
            if state.advance(event) != Failed {
                moves += 1;
            }
        }
        assert_eq!(state.allows_media(), state == Finished || state == Streaming);
    }
    // the four steps above are the only moves that do not fail
    assert_eq!(moves, 4);
    assert_eq!(Idle.advance(Finish), Failed);
    assert_eq!(Streaming.advance(StreamStarted), Failed);
}

fn session() -> EndPoint {
    EndPoint::new("0000000001".to_string(), "0000000002".to_string())
}

#[test]
fn happy_path_negotiation_between_two_sessions() {
    let mut active = session();
    let mut passive = session();
    let monitors = vec![monitor("DISPLAY-0", true, 60, 1920), monitor("DISPLAY-1", false, 30, 800)];

    let request = active.begin_negotiation(offer()).unwrap();
    assert_eq!(request, EndPointMessage::NegotiateVisitDesktopParamsRequest(offer()));
    assert_eq!(active.negotiation_state(), NegotiateParams);

    let reply = passive.handle_params_request(&offer(), &passive_caps());
    assert_eq!(
        reply,
        EndPointMessage::NegotiateVisitDesktopParamsResponse(
            EndPointNegotiateVisitDesktopParamsResponse {
                video_codec: VideoCodec::H264,
                audio_sample_rate: AudioSampleRate::HZ48000,
                audio_sample_format: AudioSampleFormat::F32,
                audio_dual_channel: true,
                os_type: "linux".to_string(),
                os_version: "6.1".to_string(),
            }
        )
    );
    assert_eq!(passive.negotiation_state(), SelectMonitor);

    let request = active.accept_params_response(&offer(), &reply).unwrap();
    assert_eq!(
        request,
        EndPointMessage::NegotiateSelectMonitorRequest(EndPointNegotiateSelectMonitorRequest {})
    );
    assert_eq!(active.negotiation_state(), SelectMonitor);

    let reply = passive.handle_select_monitor_request(monitors.clone());
    assert_eq!(
        reply,
        EndPointMessage::NegotiateSelectMonitorResponse(EndPointNegotiateSelectMonitorResponse {
            monitor_descriptions: monitors.clone()
        })
    );

    let request = active.accept_monitor_list(&reply, "DISPLAY-0", 60).unwrap();
    let finishing = EndPointNegotiateFinishedRequest {
        selected_monitor_id: "DISPLAY-0".to_string(),
        expected_frame_rate: 60,
    };
    assert_eq!(request, EndPointMessage::NegotiateFinishedRequest(finishing.clone()));
    assert_eq!(active.negotiation_state(), SelectMonitor);
    assert!(!active.negotiation_state().allows_media());

    let (reply, plan) = passive.handle_finished_request(&finishing, &monitors);
    assert_eq!(
        reply,
        EndPointMessage::NegotiateFinishedResponse(EndPointNegotiateFinishedResponse {})
    );
    assert_eq!(plan, Some(CapturePlan { monitor: 0, width: 1920, height: 1080, fps: 60 }));
    assert_eq!(passive.negotiation_state(), Finished);
    assert_eq!(passive.display_id(), Some("DISPLAY-0".to_string()));

    assert_eq!(active.accept_finished_response(&reply), Ok(()));
    assert_eq!(active.negotiation_state(), Finished);
    assert!(active.negotiation_state().allows_media());
}

#[test]
fn active_side_picks_the_primary_display_when_it_wants_none() {
    let mut active = session();
    active.begin_negotiation(offer()).unwrap();
    let answer = EndPointMessage::NegotiateVisitDesktopParamsResponse(
        negotiate_params(&offer(), &passive_caps()).unwrap(),
    );
    active.accept_params_response(&offer(), &answer).unwrap();
    let list = EndPointMessage::NegotiateSelectMonitorResponse(
        EndPointNegotiateSelectMonitorResponse {
            monitor_descriptions: vec![monitor("A", false, 60, 1), monitor("B", true, 60, 2)],
        },
    );
    assert_eq!(
        active.accept_monitor_list(&list, "", 25),
        Ok(EndPointMessage::NegotiateFinishedRequest(EndPointNegotiateFinishedRequest {
            selected_monitor_id: "B".to_string(),
            expected_frame_rate: 25,
        }))
    );
}

#[test]
fn passive_side_fails_the_negotiation_on_a_step_out_of_turn() {
    let monitors = vec![monitor("A", true, 60, 1)];
    let finishing =
        EndPointNegotiateFinishedRequest { selected_monitor_id: "A".to_string(), expected_frame_rate: 60 };

    let mut passive = session();
    assert_eq!(passive.handle_select_monitor_request(monitors.clone()), EndPointMessage::Error);
    assert_eq!(passive.negotiation_state(), Failed);
    // nothing leads out of a failed negotiation
    assert_eq!(passive.handle_params_request(&offer(), &passive_caps()), EndPointMessage::Error);
    assert_eq!(passive.negotiation_state(), Failed);

    let mut passive = session();
    assert_eq!(passive.handle_finished_request(&finishing, &monitors), (EndPointMessage::Error, None));
    assert_eq!(passive.negotiation_state(), Failed);
    assert_eq!(passive.display_id(), None);

    let mut passive = session();
    passive.handle_params_request(&offer(), &passive_caps());
    assert_eq!(passive.handle_params_request(&offer(), &passive_caps()), EndPointMessage::Error);
    assert_eq!(passive.negotiation_state(), Failed);
}

#[test]
fn passive_side_fails_the_negotiation_without_agreement() {
    let mut local = passive_caps();
    local.video_codecs = vec![VideoCodec::VP8];
    let mut passive = session();
    assert_eq!(passive.handle_params_request(&offer(), &local), EndPointMessage::Error);
    assert_eq!(passive.negotiation_state(), Failed);

    let mut passive = session();
    passive.handle_params_request(&offer(), &passive_caps());
    let finishing =
        EndPointNegotiateFinishedRequest { selected_monitor_id: "Z".to_string(), expected_frame_rate: 60 };
    let no_primary = vec![monitor("A", false, 60, 1)];
    assert_eq!(passive.handle_finished_request(&finishing, &no_primary), (EndPointMessage::Error, None));
    assert_eq!(passive.negotiation_state(), Failed);
}

#[test]
fn active_side_fails_the_negotiation_on_a_wrong_reply() {
    let answer = EndPointMessage::NegotiateVisitDesktopParamsResponse(
        negotiate_params(&offer(), &passive_caps()).unwrap(),
    );
    let list = EndPointMessage::NegotiateSelectMonitorResponse(
        EndPointNegotiateSelectMonitorResponse { monitor_descriptions: vec![monitor("A", false, 60, 1)] },
    );
    let done = EndPointMessage::NegotiateFinishedResponse(EndPointNegotiateFinishedResponse {});

    let mut active = session();
    assert_eq!(active.accept_params_response(&offer(), &answer), Err(NegotiationError::OutOfTurn));
    assert_eq!(active.negotiation_state(), Failed);
    assert_eq!(active.begin_negotiation(offer()), Err(NegotiationError::OutOfTurn));

    let mut active = session();
    active.begin_negotiation(offer()).unwrap();
    assert_eq!(
        active.accept_params_response(&offer(), &EndPointMessage::Error),
        Err(NegotiationError::UnexpectedReply)
    );
    assert_eq!(active.negotiation_state(), Failed);

    let mut active = session();
    active.begin_negotiation(offer()).unwrap();
    let mut narrow = offer();
    narrow.video_codecs = vec![VideoCodec::VP9];
    assert_eq!(
        active.accept_params_response(&narrow, &answer),
        Err(NegotiationError::AnswerOutsideOffer)
    );

    let mut active = session();
    active.begin_negotiation(offer()).unwrap();
    assert_eq!(active.accept_monitor_list(&list, "A", 60), Err(NegotiationError::OutOfTurn));

    let mut active = session();
    active.begin_negotiation(offer()).unwrap();
    active.accept_params_response(&offer(), &answer).unwrap();
    assert_eq!(active.accept_monitor_list(&done, "A", 60), Err(NegotiationError::UnexpectedReply));

    let mut active = session();
    active.begin_negotiation(offer()).unwrap();
    active.accept_params_response(&offer(), &answer).unwrap();
    // the wanted display is not on offer and none is primary
    assert_eq!(active.accept_monitor_list(&list, "B", 60), Err(NegotiationError::MonitorNotFound));
    assert_eq!(active.negotiation_state(), Failed);

    let mut active = session();
    assert_eq!(active.accept_finished_response(&done), Err(NegotiationError::OutOfTurn));
    let mut active = session();
    active.begin_negotiation(offer()).unwrap();
    active.accept_params_response(&offer(), &answer).unwrap();
    assert_eq!(active.accept_finished_response(&list), Err(NegotiationError::UnexpectedReply));
    assert_eq!(active.negotiation_state(), Failed);
}
