use mirrorx_core::codec::packet::{deserialize, serialize, DecodeError};
use mirrorx_core::endian::{get_le, put_le};
use mirrorx_core::message::{
    AudioSampleFormat, AudioSampleRate, EndPointAudioFrame, EndPointDownloadFileReply,
    EndPointDownloadFileRequest, EndPointFileTransferBlock, EndPointFileTransferError,
    EndPointHandshakeRequest, EndPointHandshakeResponse, EndPointInput, EndPointMessage,
    EndPointMessagePacket, EndPointMessagePacketType, EndPointNegotiateFinishedRequest,
    EndPointNegotiateFinishedResponse, EndPointNegotiateSelectMonitorRequest,
    EndPointNegotiateSelectMonitorResponse, EndPointNegotiateVisitDesktopParamsRequest,
    EndPointNegotiateVisitDesktopParamsResponse, EndPointSendFileReply, EndPointSendFileRequest,
    EndPointVideoFrame, InputEvent, KeyboardEvent, KeyboardKey, MonitorDescription, MouseEvent,
    MouseKey, VideoCodec,
};

fn packet(
    typ: EndPointMessagePacketType,
    call_id: Option<u16>,
    message: EndPointMessage,
) -> EndPointMessagePacket {
    EndPointMessagePacket { typ, call_id, message }
}

fn monitor(id: &str, primary: bool) -> MonitorDescription {
    MonitorDescription {
        id: id.to_string(),
        name: format!("Monitor {}", id),
        frame_rate: 60,
        width: 1920,
        height: 1080,
        is_primary: primary,
        screen_shot: vec![0x89, 0x50, 0x4e, 0x47],
    }
}

fn every_message() -> Vec<EndPointMessage> {
    vec![
        EndPointMessage::Error,
        EndPointMessage::NegotiateVisitDesktopParamsRequest(
            EndPointNegotiateVisitDesktopParamsRequest {
                video_codecs: vec![VideoCodec::H264, VideoCodec::HEVC],
                audio_max_sample_rate: AudioSampleRate::HZ48000,
                audio_sample_formats: vec![AudioSampleFormat::I16, AudioSampleFormat::F32],
                audio_dual_channel: true,
            },
        ),
        EndPointMessage::NegotiateVisitDesktopParamsResponse(
            EndPointNegotiateVisitDesktopParamsResponse {
                video_codec: VideoCodec::H264,
                audio_sample_rate: AudioSampleRate::HZ48000,
                audio_sample_format: AudioSampleFormat::F32,
                audio_dual_channel: true,
                os_type: "linux".to_string(),
                os_version: "6.1".to_string(),
            },
        ),
        EndPointMessage::NegotiateSelectMonitorRequest(EndPointNegotiateSelectMonitorRequest {}),
        EndPointMessage::NegotiateSelectMonitorResponse(EndPointNegotiateSelectMonitorResponse {
            monitor_descriptions: vec![monitor("DISPLAY-0", true), monitor("DISPLAY-1", false)],
        }),
        EndPointMessage::NegotiateSelectMonitorResponse(EndPointNegotiateSelectMonitorResponse {
            monitor_descriptions: vec![],
        }),
        EndPointMessage::NegotiateFinishedRequest(EndPointNegotiateFinishedRequest {
            selected_monitor_id: "DISPLAY-0".to_string(),
            expected_frame_rate: 60,
        }),
        EndPointMessage::NegotiateFinishedResponse(EndPointNegotiateFinishedResponse {}),
        EndPointMessage::VideoFrame(EndPointVideoFrame {
            sps: Some(vec![0x67, 0x42]),
            pps: Some(vec![0x68]),
            buffer: vec![0, 0, 0, 1, 0x65],
        }),
        EndPointMessage::VideoFrame(EndPointVideoFrame { sps: None, pps: None, buffer: vec![] }),
        EndPointMessage::AudioFrame(EndPointAudioFrame {
            buffer: vec![1, 2, 3],
            frame_size_per_channel: 960,
            elapsed: u128::MAX - 5,
        }),
        EndPointMessage::Input(EndPointInput {
            event: InputEvent::Mouse(MouseEvent::MouseMove(
                MouseKey::NoButton,
                0.25f32.to_bits(),
                0.75f32.to_bits(),
            )),
        }),
        EndPointMessage::Input(EndPointInput {
            event: InputEvent::Mouse(MouseEvent::MouseUp(MouseKey::Left, 0, 0x3f80_0000)),
        }),
        EndPointMessage::Input(EndPointInput {
            event: InputEvent::Mouse(MouseEvent::MouseDown(MouseKey::Right, 1, 2)),
        }),
        EndPointMessage::Input(EndPointInput {
            event: InputEvent::Mouse(MouseEvent::MouseScrollWheel((-3.0f32).to_bits())),
        }),
        EndPointMessage::Input(EndPointInput {
            event: InputEvent::Keyboard(KeyboardEvent::KeyDown(KeyboardKey::NumpadEnter)),
        }),
        EndPointMessage::Input(EndPointInput {
            event: InputEvent::Keyboard(KeyboardEvent::KeyUp(KeyboardKey::A)),
        }),
        EndPointMessage::HandshakeRequest(EndPointHandshakeRequest {
            active_device_id: 1,
            passive_device_id: -2,
            visit_credentials: "sésame ✓".to_string(),
        }),
        EndPointMessage::HandshakeRequest(EndPointHandshakeRequest {
            active_device_id: i64::MIN,
            passive_device_id: i64::MAX,
            visit_credentials: String::new(),
        }),
        EndPointMessage::HandshakeResponse(EndPointHandshakeResponse {}),
        EndPointMessage::DownloadFileRequest(EndPointDownloadFileRequest {
            id: "t1".to_string(),
            path: "/etc/hostname".to_string(),
        }),
        EndPointMessage::DownloadFileReply(EndPointDownloadFileReply { size: 1 << 40 }),
        EndPointMessage::SendFileRequest(EndPointSendFileRequest {
            id: "t2".to_string(),
            filename: "notes.txt".to_string(),
            size: 12,
        }),
        EndPointMessage::SendFileReply(EndPointSendFileReply {}),
        EndPointMessage::FileTransferBlock(EndPointFileTransferBlock {
            id: "t1".to_string(),
            data: vec![7; 100],
        }),
        EndPointMessage::FileTransferError(EndPointFileTransferError { id: "t1".to_string() }),
    ]
}

#[test]
fn little_endian_integers() {
    let mut out = vec![0xee];
    put_le(&mut out, 0x0102_0304, 4);
    assert_eq!(out, vec![0xee, 4, 3, 2, 1]);
    put_le(&mut out, 0x1ff, 1);
    assert_eq!(out, vec![0xee, 4, 3, 2, 1, 0xff]);
    put_le(&mut out, 5, 0);
    assert_eq!(out.len(), 6);
    assert_eq!(get_le(&out, 1, 4), Some(0x0102_0304));
    assert_eq!(get_le(&out, 0, 2), Some(0x04ee));
    assert_eq!(get_le(&out, 3, 0), Some(0));
    assert_eq!(get_le(&out, 6, 0), Some(0));
    assert_eq!(get_le(&out, 3, 4), None);
    assert_eq!(get_le(&out, 7, 0), None);
    assert_eq!(get_le(&out, usize::MAX, 2), None);
    let mut wide = Vec::new();
    put_le(&mut wide, u128::MAX - 1, 16);
    assert_eq!(get_le(&wide, 0, 16), Some(u128::MAX - 1));
    put_le(&mut wide, 7, 18);
    assert_eq!(wide.len(), 34);
    assert_eq!(get_le(&wide, 0, 17), None);
    assert_eq!(get_le(&wide, 16, 16), Some(7));
}

#[test]
fn request_packet_has_this_binary_form() {
    let p = packet(EndPointMessagePacketType::Request, Some(0x1234), EndPointMessage::Error);
    assert_eq!(serialize(&p), vec![0, 0, 0, 0, 1, 0x34, 0x12, 0, 0, 0, 0]);
}

#[test]
fn video_push_has_this_binary_form() {
    let p = packet(
        EndPointMessagePacketType::Push,
        None,
        EndPointMessage::VideoFrame(EndPointVideoFrame {
            sps: Some(vec![1, 2, 3]),
            pps: None,
            buffer: vec![9, 8],
        }),
    );
    let expected: Vec<u8> = vec![
        2, 0, 0, 0, // push
        0, // no call id
        7, 0, 0, 0, // video frame
        1, 3, 0, 0, 0, 0, 0, 0, 0, 1, 2, 3, // sps
        0, // no pps
        2, 0, 0, 0, 0, 0, 0, 0, 9, 8, // buffer
    ];
    assert_eq!(serialize(&p), expected);
    assert_eq!(deserialize(&expected), Ok(p));
}

#[test]
fn params_response_has_this_binary_form() {
    let p = packet(
        EndPointMessagePacketType::Response,
        Some(7),
        EndPointMessage::NegotiateVisitDesktopParamsResponse(
            EndPointNegotiateVisitDesktopParamsResponse {
                video_codec: VideoCodec::HEVC,
                audio_sample_rate: AudioSampleRate::HZ48000,
                audio_sample_format: AudioSampleFormat::F32,
                audio_dual_channel: true,
                os_type: "linux".to_string(),
                os_version: "é".to_string(),
            },
        ),
    );
    let expected: Vec<u8> = vec![
        1, 0, 0, 0, // response
        1, 7, 0, // call id 7
        2, 0, 0, 0, // params response
        1, 0, 0, 0, // HEVC
        4, 0, 0, 0, // 48 kHz
        2, 0, 0, 0, // F32
        1, // two channels
        5, 0, 0, 0, 0, 0, 0, 0, b'l', b'i', b'n', b'u', b'x', //
        2, 0, 0, 0, 0, 0, 0, 0, 0xc3, 0xa9,
    ];
    assert_eq!(serialize(&p), expected);
}

#[test]
fn signed_numbers_are_twos_complement() {
    let p = packet(
        EndPointMessagePacketType::Push,
        None,
        EndPointMessage::HandshakeRequest(EndPointHandshakeRequest {
            active_device_id: -1,
            passive_device_id: i64::MIN,
            visit_credentials: String::new(),
        }),
    );
    let bytes = serialize(&p);
    assert_eq!(&bytes[9..17], &[0xff; 8]);
    assert_eq!(&bytes[17..25], &[0, 0, 0, 0, 0, 0, 0, 0x80]);
    assert_eq!(deserialize(&bytes), Ok(p));
}

#[test]
fn every_message_survives_the_round_trip() {
    for message in every_message() {
        for (typ, call_id) in [
            (EndPointMessagePacketType::Request, Some(0u16)),
            (EndPointMessagePacketType::Response, Some(u16::MAX)),
            (EndPointMessagePacketType::Push, None),
            (EndPointMessagePacketType::Push, Some(3)),
            (EndPointMessagePacketType::Request, None),
        ] {
            let p = packet(typ, call_id, message.clone());
            let bytes = serialize(&p);
            assert_eq!(deserialize(&bytes), Ok(p));
        }
    }
}

#[test]
fn every_key_survives_the_round_trip() {
    let mut code = 0u32;
    while let Some(key) = KeyboardKey::from_code(code) {
        assert_eq!(key.code(), code);
        let p = packet(
            EndPointMessagePacketType::Push,
            None,
            EndPointMessage::Input(EndPointInput {
                event: InputEvent::Keyboard(KeyboardEvent::KeyDown(key)),
            }),
        );
        assert_eq!(deserialize(&serialize(&p)), Ok(p));
        code += 1;
    }
    assert_eq!(code, 103);
    assert_eq!(KeyboardKey::A.code(), 0);
    assert_eq!(KeyboardKey::Z.code(), 25);
    assert_eq!(KeyboardKey::Digit0.code(), 26);
    assert_eq!(KeyboardKey::from_code(102), Some(KeyboardKey::NumpadEnter));
    assert_eq!(KeyboardKey::from_code(103), None);
    assert_eq!(KeyboardKey::from_code(u32::MAX), None);
}

#[test]
fn enum_codes_are_fixed() {
    assert_eq!(VideoCodec::H264.code(), 0);
    assert_eq!(VideoCodec::VP9.code(), 3);
    assert_eq!(VideoCodec::from_code(4), None);
    assert_eq!(AudioSampleRate::HZ8000.code(), 0);
    assert_eq!(AudioSampleRate::from_code(4), Some(AudioSampleRate::HZ48000));
    assert_eq!(AudioSampleRate::from_code(5), None);
    assert_eq!(AudioSampleFormat::from_code(1), Some(AudioSampleFormat::U16));
    assert_eq!(AudioSampleFormat::from_code(3), None);
    assert_eq!(MouseKey::from_code(3), Some(MouseKey::Wheel));
    assert_eq!(MouseKey::from_code(4), None);
    assert_eq!(EndPointMessagePacketType::Push.code(), 2);
    assert_eq!(EndPointMessagePacketType::from_code(3), None);
}

#[test]
fn truncated_input_is_refused() {
    for message in every_message() {
        let p = packet(EndPointMessagePacketType::Request, Some(9), message);
        let bytes = serialize(&p);
        for cut in 0..bytes.len() {
            assert_eq!(deserialize(&bytes[..cut]), Err(DecodeError));
        }
    }
}

#[test]
fn trailing_bytes_are_refused() {
    let p = packet(EndPointMessagePacketType::Push, None, EndPointMessage::Error);
    let mut bytes = serialize(&p);
    bytes.push(0);
    assert_eq!(deserialize(&bytes), Err(DecodeError));
}

#[test]
fn unknown_tags_are_refused() {
    // packet type 3
    assert_eq!(deserialize(&[3, 0, 0, 0, 0, 0, 0, 0, 0]), Err(DecodeError));
    // message 18
    assert_eq!(deserialize(&[2, 0, 0, 0, 0, 18, 0, 0, 0]), Err(DecodeError));
    // option tag 2
    assert_eq!(deserialize(&[2, 0, 0, 0, 2, 0, 0, 0, 0]), Err(DecodeError));
    // the same with valid tags is the push of an error
    assert_eq!(
        deserialize(&[2, 0, 0, 0, 0, 0, 0, 0, 0]),
        Ok(packet(EndPointMessagePacketType::Push, None, EndPointMessage::Error))
    );
}

#[test]
fn flag_other_than_zero_or_one_is_refused() {
    let p = packet(
        EndPointMessagePacketType::Push,
        None,
        EndPointMessage::NegotiateVisitDesktopParamsRequest(
            EndPointNegotiateVisitDesktopParamsRequest {
                video_codecs: vec![],
                audio_max_sample_rate: AudioSampleRate::HZ8000,
                audio_sample_formats: vec![],
                audio_dual_channel: true,
            },
        ),
    );
    let mut bytes = serialize(&p);
    let last = bytes.len() - 1;
    assert_eq!(bytes[last], 1);
    bytes[last] = 2;
    assert_eq!(deserialize(&bytes), Err(DecodeError));
    bytes[last] = 0;
    assert!(deserialize(&bytes).is_ok());
}

#[test]
fn text_that_is_not_utf8_is_refused() {
    let p = packet(
        EndPointMessagePacketType::Push,
        None,
        EndPointMessage::FileTransferError(EndPointFileTransferError { id: "ab".to_string() }),
    );
    let mut bytes = serialize(&p);
    let last = bytes.len() - 1;
    bytes[last] = 0xff;
    assert_eq!(deserialize(&bytes), Err(DecodeError));
    // a lone continuation byte
    bytes[last] = 0x80;
    assert_eq!(deserialize(&bytes), Err(DecodeError));
    bytes[last] = b'c';
    assert_eq!(
        deserialize(&bytes),
        Ok(packet(
            EndPointMessagePacketType::Push,
            None,
            EndPointMessage::FileTransferError(EndPointFileTransferError {
                id: "ac".to_string()
            }),
        ))
    );
}

#[test]
fn length_beyond_the_input_is_refused() {
    // a video frame whose buffer claims 2^63 bytes
    let bytes: Vec<u8> = vec![
        2, 0, 0, 0, 0, 7, 0, 0, 0, 0, 0, //
        0, 0, 0, 0, 0, 0, 0, 0x80,
    ];
    assert_eq!(deserialize(&bytes), Err(DecodeError));
    // a list that claims more displays than there are bytes
    let bytes: Vec<u8> = vec![2, 0, 0, 0, 0, 4, 0, 0, 0, 0xff, 0xff, 0xff, 0xff, 0, 0, 0, 0];
    assert_eq!(deserialize(&bytes), Err(DecodeError));
}
