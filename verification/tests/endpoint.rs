use mirrorx_core::endpoint::{
    audio_queue_capacity, AudioCapturePlan, Dispatch, DropReason, EndPoint, FrameOutcome,
    SendError, AUDIO_QUEUE_CAPACITY, CALL_TIMEOUT_SECS, OUTBOUND_CAPACITY, VIDEO_QUEUE_CAPACITY,
};
use mirrorx_core::message::{
    EndPointAudioFrame, EndPointDownloadFileRequest, EndPointFileTransferBlock,
    EndPointFileTransferError, EndPointInput, EndPointMessage, EndPointMessagePacket,
    EndPointMessagePacketType, EndPointNegotiateSelectMonitorRequest, EndPointVideoFrame,
    InputEvent, KeyboardEvent, KeyboardKey, MonitorDescription,
};
use mirrorx_core::negotiation::{NegotiationError, NegotiationEvent, NegotiationState};

fn endpoint() -> EndPoint {
    EndPoint::new("0000000001".to_string(), "0000000002".to_string())
}

fn streaming() -> EndPoint {
    let mut e = endpoint();
    e.advance_negotiation(NegotiationEvent::Begin);
    e.advance_negotiation(NegotiationEvent::ParamsAgreed);
    assert_eq!(e.advance_negotiation(NegotiationEvent::Finish), NegotiationState::Finished);
    e
}

fn frame(tag: u8) -> EndPointVideoFrame {
    EndPointVideoFrame { sps: None, pps: None, buffer: vec![tag] }
}

fn audio(tag: u8) -> EndPointAudioFrame {
    EndPointAudioFrame { buffer: vec![tag], frame_size_per_channel: 960, elapsed: tag as u128 }
}

fn request() -> EndPointMessage {
    EndPointMessage::NegotiateSelectMonitorRequest(EndPointNegotiateSelectMonitorRequest {})
}

fn monitor(id: &str, primary: bool, rate: u8) -> MonitorDescription {
    MonitorDescription {
        id: id.to_string(),
        name: id.to_string(),
        frame_rate: rate,
        width: 2560,
        height: 1440,
        is_primary: primary,
        screen_shot: vec![],
    }
}

#[test]
fn a_new_session_knows_its_peers_and_nothing_else() {
    let mut e = endpoint();
    assert_eq!(e.local_device_id(), "0000000001");
    assert_eq!(e.remote_device_id(), "0000000002");
    assert_eq!(e.display_id(), None);
    assert_eq!(e.negotiation_state(), NegotiationState::Idle);
    assert!(!e.is_closed());
    assert!(e.take_outbound().is_none());
    assert!(e.next_video_frame().is_none());
    assert!(e.next_audio_frame().is_none());
    assert_eq!(CALL_TIMEOUT_SECS, 5);
}

#[test]
fn calls_get_consecutive_ids_and_queue_requests() {
    let mut e = endpoint();
    assert_eq!(e.call(request(), 100), Ok(0));
    assert_eq!(e.call(EndPointMessage::Error, 101), Ok(1));
    assert_eq!(
        e.take_outbound(),
        Some(EndPointMessagePacket {
            typ: EndPointMessagePacketType::Request,
            call_id: Some(0),
            message: request(),
        })
    );
    assert_eq!(
        e.take_outbound(),
        Some(EndPointMessagePacket {
            typ: EndPointMessagePacketType::Request,
            call_id: Some(1),
            message: EndPointMessage::Error,
        })
    );
    assert_eq!(e.take_outbound(), None);
}

#[test]
fn reply_and_push_build_packets_of_their_role() {
    let mut e = endpoint();
    assert_eq!(e.reply(77, EndPointMessage::Error), Ok(()));
    assert_eq!(e.push(request()), Ok(()));
    let first = e.take_outbound().unwrap();
    assert_eq!(first.typ, EndPointMessagePacketType::Response);
    assert_eq!(first.call_id, Some(77));
    let second = e.take_outbound().unwrap();
    assert_eq!(second.typ, EndPointMessagePacketType::Push);
    assert_eq!(second.call_id, None);
    assert_eq!(second.message, request());
}

#[test]
fn response_reaches_the_slot_of_its_call_whatever_the_order() {
    let mut e = endpoint();
    let a = e.call(request(), 500).unwrap();
    let b = e.call(request(), 600).unwrap();
    let later = EndPointMessagePacket {
        typ: EndPointMessagePacketType::Response,
        call_id: Some(b),
        message: EndPointMessage::Error,
    };
    match e.handle_message(later) {
        Dispatch::Reply { slot, message } => {
            assert_eq!(slot, 600);
            assert_eq!(message, EndPointMessage::Error);
        }
        other => panic!("unexpected {:?}", other),
    }
    assert_eq!(e.set_call_reply(a, request()), Some((500, request())));
    // both calls have their reply: a second one is late
    assert_eq!(e.set_call_reply(a, request()), None);
    assert_eq!(e.set_call_reply(b, request()), None);
}

#[test]
fn call_timeout_drops_the_late_response() {
    let mut e = endpoint();
    let id = e.call(request(), 42).unwrap();
    // the caller's time is up: it stops waiting
    assert_eq!(e.remove_call(id), Some(42));
    assert_eq!(e.remove_call(id), None);
    let late = EndPointMessagePacket {
        typ: EndPointMessagePacketType::Response,
        call_id: Some(id),
        message: EndPointMessage::Error,
    };
    assert!(matches!(e.handle_message(late), Dispatch::Dropped(DropReason::LateResponse)));
    // the session is still open and the next call goes out
    assert!(!e.is_closed());
    assert_eq!(e.call(request(), 43), Ok(1));
}

#[test]
fn call_id_wraps_and_is_not_reused_while_its_call_waits() {
    let mut e = endpoint();
    assert_eq!(e.call(request(), 1), Ok(0));
    assert!(e.take_outbound().is_some());
    for expected in 1..=u16::MAX {
        assert_eq!(e.call(request(), 2), Ok(expected));
        assert_eq!(e.remove_call(expected), Some(2));
        assert!(e.take_outbound().is_some());
    }
    // id 0 comes up again while call 0 still waits
    assert_eq!(e.call(request(), 3), Err(SendError::CallIdInUse));
    assert!(e.take_outbound().is_none());
    // the id was used up: the next call gets 1
    assert_eq!(e.call(request(), 4), Ok(1));
    // call 0 still waits in its own slot
    assert_eq!(e.remove_call(0), Some(1));
}

#[test]
fn full_writer_queue_turns_packets_away() {
    let mut e = endpoint();
    for _ in 0..OUTBOUND_CAPACITY {
        assert_eq!(e.push(EndPointMessage::Error), Ok(()));
    }
    assert_eq!(OUTBOUND_CAPACITY, 128);
    assert_eq!(e.push(EndPointMessage::Error), Err(SendError::QueueFull));
    assert_eq!(e.reply(1, EndPointMessage::Error), Err(SendError::QueueFull));
    // a call that cannot go out does not wait either
    assert_eq!(e.call(request(), 9), Err(SendError::QueueFull));
    assert_eq!(e.remove_call(0), None);
    assert!(e.take_outbound().is_some());
    assert_eq!(e.call(request(), 9), Ok(1));
}

#[test]
fn closed_session_sends_nothing() {
    let mut e = endpoint();
    e.close();
    assert!(e.is_closed());
    assert_eq!(e.push(EndPointMessage::Error), Err(SendError::Closed));
    assert_eq!(e.call(request(), 1), Err(SendError::Closed));
    assert_eq!(e.reply(0, EndPointMessage::Error), Err(SendError::Closed));
    assert!(e.take_outbound().is_none());
    e.close();
    assert!(e.is_closed());
}

#[test]
fn known_request_goes_to_its_handler() {
    let mut e = endpoint();
    let p = EndPointMessagePacket {
        typ: EndPointMessagePacketType::Request,
        call_id: Some(5),
        message: EndPointMessage::DownloadFileRequest(EndPointDownloadFileRequest {
            id: "t1".to_string(),
            path: "/etc/hostname".to_string(),
        }),
    };
    match e.handle_message(p.clone()) {
        Dispatch::Request { call_id, message } => {
            assert_eq!(call_id, 5);
            assert_eq!(message, p.message);
        }
        other => panic!("unexpected {:?}", other),
    }
    assert!(e.take_outbound().is_none());
}

#[test]
fn unknown_request_is_answered_with_error_under_the_same_call_id() {
    let mut e = endpoint();
    let p = EndPointMessagePacket {
        typ: EndPointMessagePacketType::Request,
        call_id: Some(31),
        message: EndPointMessage::VideoFrame(frame(1)),
    };
    assert!(matches!(
        e.handle_message(p),
        Dispatch::Rejected { call_id: 31, answered: Ok(()) }
    ));
    assert_eq!(
        e.take_outbound(),
        Some(EndPointMessagePacket {
            typ: EndPointMessagePacketType::Response,
            call_id: Some(31),
            message: EndPointMessage::Error,
        })
    );
    assert!(!e.is_closed());
}

#[test]
fn packets_of_the_wrong_shape_are_dropped() {
    let mut e = streaming();
    e.start_video_render();
    for (typ, call_id) in [
        (EndPointMessagePacketType::Request, None),
        (EndPointMessagePacketType::Response, None),
        (EndPointMessagePacketType::Push, Some(1u16)),
    ] {
        let p = EndPointMessagePacket {
            typ,
            call_id,
            message: EndPointMessage::VideoFrame(frame(1)),
        };
        assert!(matches!(e.handle_message(p), Dispatch::Dropped(DropReason::Malformed)));
    }
    assert!(e.next_video_frame().is_none());
    assert!(e.take_outbound().is_none());
}

#[test]
fn pushes_go_to_their_sinks() {
    let mut e = streaming();
    e.start_video_render();
    e.start_audio_play();
    let push = |message: EndPointMessage| EndPointMessagePacket {
        typ: EndPointMessagePacketType::Push,
        call_id: None,
        message,
    };
    assert!(matches!(
        e.handle_message(push(EndPointMessage::VideoFrame(frame(1)))),
        Dispatch::Video(FrameOutcome::Queued)
    ));
    assert!(matches!(
        e.handle_message(push(EndPointMessage::AudioFrame(audio(2)))),
        Dispatch::Audio(FrameOutcome::Queued)
    ));
    let input = EndPointInput { event: InputEvent::Keyboard(KeyboardEvent::KeyUp(KeyboardKey::Q)) };
    match e.handle_message(push(EndPointMessage::Input(input))) {
        Dispatch::Input(got) => assert_eq!(got, input),
        other => panic!("unexpected {:?}", other),
    }
    let block = EndPointMessage::FileTransferBlock(EndPointFileTransferBlock {
        id: "t1".to_string(),
        data: vec![1, 2],
    });
    match e.handle_message(push(block.clone())) {
        Dispatch::FileTransfer(got) => assert_eq!(got, block),
        other => panic!("unexpected {:?}", other),
    }
    let error =
        EndPointMessage::FileTransferError(EndPointFileTransferError { id: "t1".to_string() });
    match e.handle_message(push(error.clone())) {
        Dispatch::FileTransfer(got) => assert_eq!(got, error),
        other => panic!("unexpected {:?}", other),
    }
    assert!(matches!(
        e.handle_message(push(EndPointMessage::Error)),
        Dispatch::Dropped(DropReason::UnknownPush)
    ));
    assert!(matches!(
        e.handle_message(push(request())),
        Dispatch::Dropped(DropReason::UnknownPush)
    ));
    assert_eq!(e.next_video_frame(), Some(frame(1)));
    assert_eq!(e.next_audio_frame(), Some(audio(2)));
}

#[test]
fn video_frame_before_negotiation_finished_is_dropped() {
    let mut e = endpoint();
    e.start_video_render();
    e.start_audio_play();
    assert_eq!(e.enqueue_video_frame(frame(1)), FrameOutcome::NotNegotiated);
    assert_eq!(e.enqueue_audio_frame(audio(1)), FrameOutcome::NotNegotiated);
    e.advance_negotiation(NegotiationEvent::Begin);
    e.advance_negotiation(NegotiationEvent::ParamsAgreed);
    let p = EndPointMessagePacket {
        typ: EndPointMessagePacketType::Push,
        call_id: None,
        message: EndPointMessage::VideoFrame(frame(2)),
    };
    assert!(matches!(e.handle_message(p), Dispatch::Video(FrameOutcome::NotNegotiated)));
    assert!(e.next_video_frame().is_none());
    e.advance_negotiation(NegotiationEvent::Finish);
    assert_eq!(e.enqueue_video_frame(frame(3)), FrameOutcome::Queued);
    assert_eq!(e.next_video_frame(), Some(frame(3)));
}

#[test]
fn frames_without_a_decoder_are_dropped() {
    let mut e = streaming();
    assert_eq!(e.enqueue_video_frame(frame(1)), FrameOutcome::NoSink);
    assert_eq!(e.enqueue_audio_frame(audio(1)), FrameOutcome::NoSink);
    assert!(e.start_video_render());
    assert!(!e.start_video_render());
    assert_eq!(e.enqueue_video_frame(frame(2)), FrameOutcome::Queued);
    assert_eq!(e.enqueue_audio_frame(audio(2)), FrameOutcome::NoSink);
    assert!(e.start_audio_play());
    assert!(!e.start_audio_play());
    assert_eq!(e.enqueue_audio_frame(audio(3)), FrameOutcome::Queued);
    // a second start keeps what is queued
    assert_eq!(e.next_video_frame(), Some(frame(2)));
    assert_eq!(e.next_audio_frame(), Some(audio(3)));
}

#[test]
fn back_pressure_drops_the_oldest_frames() {
    let mut e = streaming();
    e.start_video_render();
    assert_eq!(VIDEO_QUEUE_CAPACITY, 16);
    for i in 0..16u8 {
        assert_eq!(e.enqueue_video_frame(frame(i)), FrameOutcome::Queued);
    }
    // a slow decoder: four more frames arrive before it takes one
    for i in 16..20u8 {
        assert_eq!(e.enqueue_video_frame(frame(i)), FrameOutcome::QueuedOldestDropped);
    }
    // frames 0 to 3 are gone, the rest comes out in order, and no more than sixteen wait
    for i in 4..20u8 {
        assert_eq!(e.next_video_frame(), Some(frame(i)));
    }
    assert_eq!(e.next_video_frame(), None);
    assert!(!e.is_closed());

    e.start_audio_play();
    assert_eq!(AUDIO_QUEUE_CAPACITY, 100);
    for i in 0..100u8 {
        assert_eq!(e.enqueue_audio_frame(audio(i)), FrameOutcome::Queued);
    }
    assert_eq!(e.enqueue_audio_frame(audio(100)), FrameOutcome::QueuedOldestDropped);
    assert_eq!(e.next_audio_frame(), Some(audio(1)));
}

#[test]
fn media_is_not_sent_before_negotiation_finished() {
    let mut e = endpoint();
    assert_eq!(e.push_video_frame(frame(1)), Err(SendError::NotNegotiated));
    assert_eq!(e.push_audio_frame(audio(1)), Err(SendError::NotNegotiated));
    assert!(e.take_outbound().is_none());
    let mut e = streaming();
    assert_eq!(e.push_video_frame(frame(1)), Ok(false));
    assert_eq!(e.push_audio_frame(audio(1)), Ok(()));
    assert_eq!(
        e.take_outbound().unwrap().message,
        EndPointMessage::VideoFrame(frame(1))
    );
    assert_eq!(
        e.take_outbound().unwrap().message,
        EndPointMessage::AudioFrame(audio(1))
    );
    e.close();
    assert_eq!(e.push_video_frame(frame(1)), Err(SendError::Closed));
}

#[test]
fn full_writer_queue_drops_the_oldest_picture_for_a_new_one() {
    let mut e = streaming();
    assert_eq!(e.push(EndPointMessage::Error), Ok(()));
    assert_eq!(e.push_video_frame(frame(1)), Ok(false));
    assert_eq!(e.push_audio_frame(audio(9)), Ok(()));
    assert_eq!(e.push_video_frame(frame(2)), Ok(false));
    for _ in 4..OUTBOUND_CAPACITY {
        assert_eq!(e.push(EndPointMessage::Error), Ok(()));
    }
    assert_eq!(e.push_audio_frame(audio(10)), Err(SendError::QueueFull));
    assert_eq!(e.push_video_frame(frame(3)), Ok(true));
    assert_eq!(e.push_video_frame(frame(4)), Ok(true));
    // pictures 1 and 2 gave way; nothing else did
    assert_eq!(e.take_outbound().unwrap().message, EndPointMessage::Error);
    assert_eq!(e.take_outbound().unwrap().message, EndPointMessage::AudioFrame(audio(9)));
    for _ in 4..OUTBOUND_CAPACITY {
        assert_eq!(e.take_outbound().unwrap().message, EndPointMessage::Error);
    }
    assert_eq!(e.take_outbound().unwrap().message, EndPointMessage::VideoFrame(frame(3)));
    assert_eq!(e.take_outbound().unwrap().message, EndPointMessage::VideoFrame(frame(4)));
    assert!(e.take_outbound().is_none());
}

#[test]
fn full_writer_queue_without_pictures_turns_a_picture_away() {
    let mut e = streaming();
    for _ in 0..OUTBOUND_CAPACITY {
        assert_eq!(e.push(EndPointMessage::Error), Ok(()));
    }
    assert_eq!(e.push_video_frame(frame(1)), Err(SendError::QueueFull));
    // a picture sent as a request is no push and is not dropped either
    let mut e = streaming();
    assert_eq!(e.call(EndPointMessage::VideoFrame(frame(0)), 1), Ok(0));
    for _ in 1..OUTBOUND_CAPACITY {
        assert_eq!(e.push(EndPointMessage::Error), Ok(()));
    }
    assert_eq!(e.push_video_frame(frame(1)), Err(SendError::QueueFull));
}

#[test]
fn capture_starts_on_the_wanted_display_or_the_primary() {
    let monitors = vec![
        monitor("DISPLAY-0", false, 60),
        monitor("DISPLAY-1", true, 144),
        monitor("DISPLAY-2", true, 30),
    ];
    let mut e = endpoint();
    let plan = e.start_video_capture(&monitors, "DISPLAY-0", 30).unwrap();
    assert_eq!((plan.monitor, plan.width, plan.height, plan.fps), (0, 2560, 1440, 30));
    assert_eq!(e.display_id(), Some("DISPLAY-0".to_string()));
    // the first display stays the session's display
    let plan = e.start_video_capture(&monitors, "nowhere", 200).unwrap();
    assert_eq!((plan.monitor, plan.fps), (1, 144));
    assert_eq!(e.display_id(), Some("DISPLAY-0".to_string()));

    let mut e = endpoint();
    assert_eq!(
        e.start_video_capture(&monitors[..1].to_vec(), "nowhere", 60),
        Err(NegotiationError::MonitorNotFound)
    );
    assert_eq!(
        e.start_video_capture(&monitors, "DISPLAY-2", 0),
        Err(NegotiationError::InvalidFrameRate)
    );
    assert_eq!(e.display_id(), None);
}

#[test]
fn audio_capture_waits_for_the_negotiation() {
    let e = endpoint();
    assert_eq!(e.start_audio_capture(), Err(SendError::NotNegotiated));
    let e = streaming();
    assert_eq!(
        e.start_audio_capture(),
        Ok(AudioCapturePlan { sample_rate: 48000, channels: 2, queue_capacity: 100 })
    );
}

#[test]
fn audio_queue_holds_a_second_of_blocks_per_channel() {
    assert_eq!(audio_queue_capacity(48000, 960, 2), 100);
    assert_eq!(audio_queue_capacity(48000, 960, 1), 50);
    assert_eq!(audio_queue_capacity(44100, 1024, 2), 86);
    assert_eq!(audio_queue_capacity(48000, 0, 2), 0);
    assert_eq!(audio_queue_capacity(0, 960, 2), 0);
    assert_eq!(audio_queue_capacity(u32::MAX, 1, 255), u32::MAX as u64 * 255);
}
