use mirrorx_core::codec::packet::{deserialize, serialize};
use mirrorx_core::crypto::{Cipher, CryptoError, SessionKey};
use mirrorx_core::frame::{decode_frame, encode_frame, FrameError, MAX_FRAME_LEN};
use mirrorx_core::message::{
    EndPointMessage, EndPointMessagePacket, EndPointMessagePacketType, EndPointVideoFrame,
};
use mirrorx_core::nonce::{NonceExhausted, NonceSequencer};
use mirrorx_core::endpoint::EndPoint;
use mirrorx_core::registry::{connect, teardown, EndpointRegistry};
use mirrorx_core::transport::{FrameOpener, FrameSealer, Received, TransportError};

fn key(cipher: Cipher, fill: u8) -> SessionKey {
    SessionKey::new(cipher, vec![fill; 32]).unwrap()
}

fn video_push(buffer: Vec<u8>) -> EndPointMessagePacket {
    EndPointMessagePacket {
        typ: EndPointMessagePacketType::Push,
        call_id: None,
        message: EndPointMessage::VideoFrame(EndPointVideoFrame {
            sps: Some(vec![1, 2, 3]),
            pps: None,
            buffer,
        }),
    }
}

#[test]
fn nonce_starts_at_zero_and_counts_up_by_one() {
    let mut seq = NonceSequencer::new();
    assert_eq!(seq.peek(), Some(0));
    assert_eq!(seq.advance(), Ok([0u8; 12]));
    assert_eq!(seq.advance(), Ok([1, 0, 0, 0, 0, 0, 0, 0, 0, 0, 0, 0]));
    assert_eq!(seq.advance(), Ok([2, 0, 0, 0, 0, 0, 0, 0, 0, 0, 0, 0]));
    assert_eq!(seq.peek(), Some(3));
}

#[test]
fn nonce_is_little_endian() {
    let mut seq = NonceSequencer::starting_at(0x0102_0304_0506_0708_090a_0b0c).unwrap();
    assert_eq!(
        seq.advance(),
        Ok([0x0c, 0x0b, 0x0a, 0x09, 0x08, 0x07, 0x06, 0x05, 0x04, 0x03, 0x02, 0x01])
    );
}

#[test]
fn nonce_wrap_is_fatal() {
    let last: u128 = (1u128 << 96) - 1;
    let mut seq = NonceSequencer::starting_at(last).unwrap();
    assert_eq!(seq.advance(), Ok([0xff; 12]));
    assert_eq!(seq.peek(), None);
    assert_eq!(seq.advance(), Err(NonceExhausted));
    assert_eq!(seq.advance(), Err(NonceExhausted));
    assert!(NonceSequencer::starting_at(1u128 << 96).is_none());
}

#[test]
fn key_must_be_32_bytes() {
    assert!(SessionKey::new(Cipher::ChaCha20Poly1305, vec![0; 31]).is_none());
    assert!(SessionKey::new(Cipher::Aes256Gcm, vec![0; 33]).is_none());
    assert!(SessionKey::new(Cipher::Aes256Gcm, vec![0; 32]).is_some());
}

#[test]
fn seal_then_open_gives_the_plaintext_back() {
    for cipher in [Cipher::ChaCha20Poly1305, Cipher::Aes256Gcm] {
        let k = key(cipher, 7);
        let nonce = [9u8; 12];
        let plain = b"the quick brown fox".to_vec();
        let sealed = k.seal(&nonce, plain.clone()).unwrap();
        assert_eq!(sealed.len(), plain.len() + 16);
        assert_ne!(&sealed[..plain.len()], &plain[..]);
        assert_eq!(k.open(&nonce, sealed), Ok(plain));
    }
}

#[test]
fn open_rejects_wrong_nonce_wrong_key_and_tampering() {
    let k = key(Cipher::ChaCha20Poly1305, 7);
    let sealed = k.seal(&[1u8; 12], vec![1, 2, 3]).unwrap();
    assert_eq!(k.open(&[2u8; 12], sealed.clone()), Err(CryptoError::OpenFailed));
    let other = key(Cipher::ChaCha20Poly1305, 8);
    assert_eq!(other.open(&[1u8; 12], sealed.clone()), Err(CryptoError::OpenFailed));
    let mut bad = sealed.clone();
    bad[0] ^= 1;
    assert_eq!(k.open(&[1u8; 12], bad), Err(CryptoError::OpenFailed));
    assert_eq!(k.open(&[1u8; 12], vec![0; 15]), Err(CryptoError::OpenFailed));
}

#[test]
fn sealing_depends_on_key_nonce_and_cipher() {
    let k = key(Cipher::ChaCha20Poly1305, 0);
    let a = k.seal(&[0u8; 12], vec![0; 4]).unwrap();
    assert_eq!(k.seal(&[0u8; 12], vec![0; 4]).unwrap(), a);
    assert_ne!(k.seal(&[1, 0, 0, 0, 0, 0, 0, 0, 0, 0, 0, 0], vec![0; 4]).unwrap(), a);
    assert_ne!(key(Cipher::ChaCha20Poly1305, 1).seal(&[0u8; 12], vec![0; 4]).unwrap(), a);
    assert_ne!(key(Cipher::Aes256Gcm, 0).seal(&[0u8; 12], vec![0; 4]).unwrap(), a);
    // an empty plaintext seals to the tag alone
    assert_eq!(k.seal(&[0u8; 12], vec![]).unwrap().len(), 16);
    assert_eq!(k.open(&[0u8; 12], k.seal(&[0u8; 12], vec![]).unwrap()), Ok(vec![]));
}

#[test]
fn frame_has_a_little_endian_length_in_front() {
    assert_eq!(encode_frame(&[0xaa, 0xbb, 0xcc]), Ok(vec![3, 0, 0, 0, 0xaa, 0xbb, 0xcc]));
    assert_eq!(encode_frame(&[]), Ok(vec![0, 0, 0, 0]));
    let body = vec![5u8; 0x0102];
    let frame = encode_frame(&body).unwrap();
    assert_eq!(&frame[..4], &[0x02, 0x01, 0, 0]);
}

#[test]
fn frame_decodes_only_when_whole() {
    let frame = encode_frame(&[1, 2, 3]).unwrap();
    for cut in 0..frame.len() {
        assert_eq!(decode_frame(&frame[..cut]), Ok(None));
    }
    assert_eq!(decode_frame(&frame), Ok(Some((vec![1, 2, 3], 7))));
    let mut two = frame.clone();
    two.extend_from_slice(&[9, 0, 0]);
    assert_eq!(decode_frame(&two), Ok(Some((vec![1, 2, 3], 7))));
}

#[test]
fn frame_over_16_mib_is_refused() {
    let body = vec![0u8; MAX_FRAME_LEN + 1];
    assert_eq!(encode_frame(&body), Err(FrameError::TooLong));
    let body = vec![0u8; MAX_FRAME_LEN];
    assert!(encode_frame(&body).is_ok());
    // length field 0x0100_0001
    assert_eq!(decode_frame(&[1, 0, 0, 1]), Err(FrameError::TooLong));
    assert_eq!(decode_frame(&[1, 0, 0, 1, 5, 5]), Err(FrameError::TooLong));
    // length field 0x0100_0000 is within the limit
    assert_eq!(decode_frame(&[0, 0, 0, 1]), Ok(None));
}

#[test]
fn packet_round_trip_through_the_whole_pipeline() {
    for cipher in [Cipher::ChaCha20Poly1305, Cipher::Aes256Gcm] {
        let mut sealer = FrameSealer::new(key(cipher, 3), NonceSequencer::new());
        let mut opener = FrameOpener::new(key(cipher, 3), NonceSequencer::new());
        let mut wire: Vec<u8> = Vec::new();
        let packets: Vec<EndPointMessagePacket> =
            (0..5u8).map(|i| video_push(vec![i; 10 * i as usize])).collect();
        for p in &packets {
            wire.extend_from_slice(&sealer.seal_packet(p).unwrap());
        }
        let mut at = 0;
        for p in &packets {
            match opener.receive(&wire[at..]).unwrap() {
                Some((Received::Packet(got), consumed)) => {
                    assert_eq!(&got, p);
                    at += consumed;
                }
                other => panic!("unexpected {:?}", other),
            }
        }
        assert_eq!(at, wire.len());
        assert!(matches!(opener.receive(&wire[at..]), Ok(None)));
    }
}

#[test]
fn nonce_desynchronization_ends_the_session() {
    let mut sealer = FrameSealer::new(key(Cipher::ChaCha20Poly1305, 3), NonceSequencer::new());
    let mut opener = FrameOpener::new(key(Cipher::ChaCha20Poly1305, 3), NonceSequencer::new());
    let _first = sealer.seal_packet(&video_push(vec![1])).unwrap();
    let second = sealer.seal_packet(&video_push(vec![2])).unwrap();
    // the frame sealed under nonce 1 arrives where nonce 0 is expected
    assert!(matches!(opener.receive(&second), Err(TransportError::OpenFailed)));
}

#[test]
fn nonce_desynchronization_tears_the_session_down() {
    let mut registry = EndpointRegistry::new();
    let mut endpoint: EndPoint =
        connect(&mut registry, true, "0000000001".to_string(), "0000000002".to_string(), 1, 4).unwrap();
    let mut sealer = FrameSealer::new(key(Cipher::Aes256Gcm, 9), NonceSequencer::new());
    let mut opener = FrameOpener::new(key(Cipher::Aes256Gcm, 9), NonceSequencer::new());
    let first = sealer.seal_packet(&video_push(vec![1])).unwrap();
    assert!(matches!(opener.receive(&first), Ok(Some((Received::Packet(_), _)))));
    // a frame is skipped: the next one to arrive was sealed under nonce 2
    let _skipped = sealer.seal_packet(&video_push(vec![2])).unwrap();
    let third = sealer.seal_packet(&video_push(vec![3])).unwrap();
    assert!(matches!(opener.receive(&third), Err(TransportError::OpenFailed)));
    assert!(teardown(&mut registry, &mut endpoint, 4));
    assert_eq!(registry.lookup("0000000002"), None);
    assert!(endpoint.is_closed());
}

#[test]
fn opener_stops_when_nonces_run_out() {
    let last: u128 = (1u128 << 96) - 1;
    let mut sealer = FrameSealer::new(
        key(Cipher::ChaCha20Poly1305, 3),
        NonceSequencer::starting_at(last).unwrap(),
    );
    let mut opener = FrameOpener::new(
        key(Cipher::ChaCha20Poly1305, 3),
        NonceSequencer::starting_at(last).unwrap(),
    );
    let frame = sealer.seal_packet(&video_push(vec![1])).unwrap();
    assert!(matches!(opener.receive(&frame), Ok(Some((Received::Packet(_), _)))));
    assert!(matches!(opener.receive(&frame), Err(TransportError::NonceExhausted)));
    // an incomplete frame asks for more and uses no nonce
    assert!(matches!(opener.receive(&frame[..3]), Ok(None)));
}

#[test]
fn sealed_frame_is_header_plus_packet_plus_tag() {
    for cipher in [Cipher::ChaCha20Poly1305, Cipher::Aes256Gcm] {
        let mut sealer = FrameSealer::new(key(cipher, 5), NonceSequencer::new());
        for len in [0usize, 1, 255, 256, 70_000] {
            let packet = video_push(vec![7; len]);
            let plain = serialize(&packet).len();
            let frame = sealer.seal_packet(&packet).unwrap();
            assert_eq!(frame.len(), 4 + plain + 16);
            let header = ((plain + 16) as u32).to_le_bytes();
            assert_eq!(&frame[..4], &header[..]);
        }
    }
    // the largest packet that still fits, and the first that does not
    let mut sealer = FrameSealer::new(key(Cipher::ChaCha20Poly1305, 5), NonceSequencer::new());
    let overhead = serialize(&video_push(vec![])).len() + 16;
    let fits = video_push(vec![0; MAX_FRAME_LEN - overhead]);
    assert_eq!(sealer.seal_packet(&fits).unwrap().len(), 4 + MAX_FRAME_LEN);
    let too_long = video_push(vec![0; MAX_FRAME_LEN - overhead + 1]);
    assert_eq!(sealer.seal_packet(&too_long), Err(TransportError::FrameTooLong));
}

#[test]
fn sealer_stops_when_nonces_run_out() {
    let last: u128 = (1u128 << 96) - 1;
    let mut sealer = FrameSealer::new(
        key(Cipher::ChaCha20Poly1305, 3),
        NonceSequencer::starting_at(last).unwrap(),
    );
    assert!(sealer.seal_packet(&video_push(vec![1])).is_ok());
    assert_eq!(sealer.seal_packet(&video_push(vec![1])), Err(TransportError::NonceExhausted));
}

#[test]
fn oversized_packet_is_a_transport_error() {
    let mut sealer = FrameSealer::new(key(Cipher::ChaCha20Poly1305, 3), NonceSequencer::new());
    let big = video_push(vec![0u8; MAX_FRAME_LEN]);
    assert_eq!(sealer.seal_packet(&big), Err(TransportError::FrameTooLong));
    let mut opener = FrameOpener::new(key(Cipher::ChaCha20Poly1305, 3), NonceSequencer::new());
    assert!(matches!(opener.receive(&[1, 0, 0, 1]), Err(TransportError::FrameTooLong)));
}

#[test]
fn undecodable_plaintext_costs_only_the_frame() {
    let k = key(Cipher::ChaCha20Poly1305, 3);
    let mut opener = FrameOpener::new(key(Cipher::ChaCha20Poly1305, 3), NonceSequencer::new());
    let mut nonces = NonceSequencer::new();
    let garbage = k.seal(&nonces.advance().unwrap(), vec![0xff; 9]).unwrap();
    let frame = encode_frame(&garbage).unwrap();
    assert!(matches!(opener.receive(&frame), Ok(Some((Received::Undecodable, 29)))));
    // the next frame still opens: the counters are in step
    let good = serialize(&video_push(vec![4, 5]));
    let sealed = k.seal(&nonces.advance().unwrap(), good.clone()).unwrap();
    let frame = encode_frame(&sealed).unwrap();
    match opener.receive(&frame).unwrap() {
        Some((Received::Packet(p), _)) => assert_eq!(p, deserialize(&good).unwrap()),
        other => panic!("unexpected {:?}", other),
    }
}
