use mirrorx_core::handshake::{
    check_handshake_response, device_id_bytes, handshake_prelude, handshake_reply,
    HandshakeError, HANDSHAKE_ACCEPT, HANDSHAKE_REJECT,
};

#[test]
fn ids_are_padded_with_zeros_on_the_left() {
    assert_eq!(device_id_bytes("1"), b"0000000001".to_vec());
    assert_eq!(device_id_bytes("1234567890"), b"1234567890".to_vec());
    assert_eq!(device_id_bytes(""), b"0000000000".to_vec());
    assert_eq!(device_id_bytes("12345678901"), b"12345678901".to_vec());
}

#[test]
fn prelude_names_the_active_peer_first_on_both_sides() {
    let from_active = handshake_prelude(true, "0000000001", "0000000002").unwrap();
    let from_passive = handshake_prelude(false, "0000000002", "0000000001").unwrap();
    assert_eq!(from_active, b"00000000010000000002".to_vec());
    assert_eq!(from_passive, from_active);
    assert_eq!(handshake_prelude(true, "7", "42"), Ok(b"00000000070000000042".to_vec()));
}

#[test]
fn ids_longer_than_ten_bytes_fail_the_handshake() {
    assert_eq!(
        handshake_prelude(true, "12345678901", "2"),
        Err(HandshakeError::ActiveIdLength)
    );
    assert_eq!(
        handshake_prelude(true, "1", "12345678901"),
        Err(HandshakeError::PassiveIdLength)
    );
    assert_eq!(
        handshake_prelude(false, "12345678901", "2"),
        Err(HandshakeError::PassiveIdLength)
    );
    // both wrong: the active peer's id is looked at first
    assert_eq!(
        handshake_prelude(false, "12345678901", "12345678901"),
        Err(HandshakeError::ActiveIdLength)
    );
}

#[test]
fn ids_that_are_not_ten_bytes_after_padding_fail_the_handshake() {
    // nine characters, padded to ten, but eleven bytes
    assert_eq!(handshake_prelude(true, "12345678é", "2"), Err(HandshakeError::ActiveIdLength));
    assert_eq!(device_id_bytes("é").len(), 11);
}

#[test]
fn passive_side_accepts_only_its_own_id_in_the_passive_slot() {
    let prelude = handshake_prelude(true, "1", "2").unwrap();
    assert_eq!(handshake_reply(&prelude, "2"), HANDSHAKE_ACCEPT);
    assert_eq!(handshake_reply(&prelude, "0000000002"), HANDSHAKE_ACCEPT);
    assert_eq!(handshake_reply(&prelude, "1"), HANDSHAKE_REJECT);
    assert_eq!(handshake_reply(&prelude, "3"), HANDSHAKE_REJECT);
    assert_eq!(handshake_reply(&prelude[..19], "2"), HANDSHAKE_REJECT);
    assert_eq!(handshake_reply(&[], "2"), HANDSHAKE_REJECT);
    assert_eq!(handshake_reply(&prelude, "12345678901"), HANDSHAKE_REJECT);
    assert_eq!(HANDSHAKE_ACCEPT, 1);
}

#[test]
fn only_the_byte_one_accepts() {
    assert_eq!(check_handshake_response(1), Ok(()));
    assert_eq!(check_handshake_response(0), Err(HandshakeError::Rejected));
    assert_eq!(check_handshake_response(2), Err(HandshakeError::Rejected));
    assert_eq!(check_handshake_response(255), Err(HandshakeError::Rejected));
}
