use mirrorx_core::endpoint::{EndPoint, SendError};
use mirrorx_core::message::EndPointMessage;
use mirrorx_core::handshake::HandshakeError;
use mirrorx_core::registry::{
    connect, teardown, AlreadyRegistered, ConnectError, EndpointRegistry,
};

#[test]
fn registry_starts_empty() {
    let r = EndpointRegistry::new();
    assert_eq!(r.lookup("0000000002"), None);
    assert_eq!(r.lookup(""), None);
}

#[test]
fn registered_session_is_found_by_its_peer() {
    let mut r = EndpointRegistry::new();
    assert_eq!(r.register("0000000002", 10), Ok(()));
    assert_eq!(r.register("0000000003", 11), Ok(()));
    assert_eq!(r.lookup("0000000002"), Some(10));
    assert_eq!(r.lookup("0000000003"), Some(11));
    assert_eq!(r.lookup("0000000004"), None);
}

#[test]
fn duplicate_connect_leaves_exactly_one_session() {
    let mut r = EndpointRegistry::new();
    // two connects to the same peer finish one after the other
    assert_eq!(r.register("0000000002", 1), Ok(()));
    assert_eq!(r.register("0000000002", 2), Err(AlreadyRegistered { existing: 1 }));
    assert_eq!(r.lookup("0000000002"), Some(1));
    // the loser closes itself; its tasks find nothing of theirs to remove
    assert!(!r.remove_session("0000000002", 2));
    assert_eq!(r.lookup("0000000002"), Some(1));
}

#[test]
fn teardown_removes_the_session_once() {
    let mut r = EndpointRegistry::new();
    r.register("0000000002", 5).unwrap();
    // the reader fails first, then the writer
    assert!(r.remove_session("0000000002", 5));
    assert!(!r.remove_session("0000000002", 5));
    assert_eq!(r.lookup("0000000002"), None);
    // the peer can connect again, and a stale teardown leaves the new session alone
    assert_eq!(r.register("0000000002", 6), Ok(()));
    assert!(!r.remove_session("0000000002", 5));
    assert_eq!(r.lookup("0000000002"), Some(6));
}

#[test]
fn explicit_close_removes_whatever_session_the_peer_has() {
    let mut r = EndpointRegistry::new();
    r.register("a", 1).unwrap();
    r.register("b", 2).unwrap();
    assert_eq!(r.remove("a"), Some(1));
    assert_eq!(r.remove("a"), None);
    assert_eq!(r.lookup("a"), None);
    assert_eq!(r.lookup("b"), Some(2));
    assert_eq!(r.remove("never there"), None);
}

#[test]
fn teardown_closes_the_session_and_clears_its_entry() {
    let mut r = EndpointRegistry::new();
    let mut first = EndPoint::new("0000000001".to_string(), "0000000002".to_string());
    let mut second = EndPoint::new("0000000001".to_string(), "0000000002".to_string());
    r.register(first.remote_device_id(), 1).unwrap();
    assert!(r.register(second.remote_device_id(), 2).is_err());
    // the session that lost the race is closed and leaves the winner registered
    assert!(!teardown(&mut r, &mut second, 2));
    assert!(second.is_closed());
    assert_eq!(second.push(EndPointMessage::Error), Err(SendError::Closed));
    assert_eq!(r.lookup("0000000002"), Some(1));
    assert!(!first.is_closed());
    // a fault of the reader, then of the writer
    assert!(teardown(&mut r, &mut first, 1));
    assert!(!teardown(&mut r, &mut first, 1));
    assert!(first.is_closed());
    assert_eq!(r.lookup("0000000002"), None);
}

#[test]
fn connection_becomes_a_session_when_the_peer_accepts() {
    let mut r = EndpointRegistry::new();
    let e = connect(&mut r, true, "0000000001".to_string(), "0000000002".to_string(), 1, 7).unwrap();
    assert_eq!(e.local_device_id(), "0000000001");
    assert_eq!(e.remote_device_id(), "0000000002");
    assert!(!e.is_closed());
    assert_eq!(r.lookup("0000000002"), Some(7));
    assert_eq!(r.lookup("0000000001"), None);
}

#[test]
fn rejected_handshake_registers_nothing() {
    let mut r = EndpointRegistry::new();
    for response in [0u8, 2, 255] {
        let failed = connect(&mut r, true, "1".to_string(), "2".to_string(), response, 7);
        assert_eq!(failed.err(), Some(ConnectError::Handshake(HandshakeError::Rejected)));
    }
    assert_eq!(r.lookup("2"), None);
}

#[test]
fn concurrent_duplicate_connect_keeps_the_first_session() {
    let mut r = EndpointRegistry::new();
    let first = connect(&mut r, true, "1".to_string(), "2".to_string(), 1, 10);
    let second = connect(&mut r, true, "1".to_string(), "2".to_string(), 1, 11);
    assert!(first.is_ok());
    assert_eq!(second.err(), Some(ConnectError::AlreadyConnected { existing: 10 }));
    assert_eq!(r.lookup("2"), Some(10));
    // a rejected handshake is reported before the duplicate
    let third = connect(&mut r, true, "1".to_string(), "2".to_string(), 0, 12);
    assert_eq!(third.err(), Some(ConnectError::Handshake(HandshakeError::Rejected)));
}

#[test]
fn connect_fails_on_an_id_that_is_not_ten_bytes_once_padded() {
    let mut r = EndpointRegistry::new();
    // eleven bytes stay eleven bytes: the handshake fails though the peer accepted
    let failed = connect(&mut r, true, "12345678901".to_string(), "0000000002".to_string(), 1, 7);
    assert_eq!(failed.err(), Some(ConnectError::Handshake(HandshakeError::ActiveIdLength)));
    assert_eq!(r.lookup("0000000002"), None);
    let failed = connect(&mut r, false, "12345678901".to_string(), "0000000002".to_string(), 1, 7);
    assert_eq!(failed.err(), Some(ConnectError::Handshake(HandshakeError::PassiveIdLength)));
    assert_eq!(r.lookup("0000000002"), None);
    let failed = connect(&mut r, true, "1".to_string(), "12345678901".to_string(), 1, 7);
    assert_eq!(failed.err(), Some(ConnectError::Handshake(HandshakeError::PassiveIdLength)));
    assert_eq!(r.lookup("12345678901"), None);
    // nine characters but eleven bytes once padded
    let failed = connect(&mut r, true, "1".to_string(), "12345678é".to_string(), 1, 7);
    assert_eq!(failed.err(), Some(ConnectError::Handshake(HandshakeError::PassiveIdLength)));
    // the length of an id is looked at before the answer and before the registry
    r.register("12345678901", 3).unwrap();
    let failed = connect(&mut r, true, "1".to_string(), "12345678901".to_string(), 0, 7);
    assert_eq!(failed.err(), Some(ConnectError::Handshake(HandshakeError::PassiveIdLength)));
    assert_eq!(r.lookup("12345678901"), Some(3));
}

#[test]
fn connect_pads_short_ids_and_does_not_refuse_them() {
    let mut r = EndpointRegistry::new();
    let e = connect(&mut r, true, "1".to_string(), "".to_string(), 1, 7).unwrap();
    assert_eq!(e.local_device_id(), "1");
    assert_eq!(r.lookup(""), Some(7));
    assert!(connect(&mut r, false, "0000000009".to_string(), "123456789".to_string(), 1, 8).is_ok());
}

#[test]
fn torn_down_session_gives_its_writer_nothing_more() {
    let mut r = EndpointRegistry::new();
    let mut e = connect(&mut r, true, "1".to_string(), "2".to_string(), 1, 7).unwrap();
    for _ in 0..5 {
        e.push(EndPointMessage::Error).unwrap();
    }
    assert!(e.take_outbound().is_some());
    assert!(teardown(&mut r, &mut e, 7));
    // four packets still wait, and none of them is handed out
    assert_eq!(e.take_outbound(), None);
    assert_eq!(e.take_outbound(), None);
    assert_eq!(e.push(EndPointMessage::Error), Err(SendError::Closed));
    assert_eq!(e.take_outbound(), None);
}
