//! The registry of live sessions: at most one per remote peer.

use vstd::prelude::*;
use crate::endpoint::{EndPoint, EndPointModel};
use crate::handshake::{
    check_handshake_response, handshake_prelude, id_bytes, prelude_error, HandshakeError,
    HANDSHAKE_ACCEPT,
};
use crate::table::{
    entry_of, peer_sessions, session_table_get, session_table_insert, session_table_new,
    session_table_remove, SessionTable,
};

verus! {

/// Raised when a peer already has a session. Holds the handle of that session.
#[derive(Clone, Copy, Debug, PartialEq, Eq, Structural)]
pub struct AlreadyRegistered {
    pub existing: u64,
}

/// The sessions of this process, by the id of the remote peer.
///
/// A session is entered once its handshake went through and leaves when its
/// reader or its writer fails, whichever comes first, or when it is closed.
#[derive(Debug)]
pub struct EndpointRegistry {
    sessions: SessionTable,
}

impl View for EndpointRegistry {
    type V = Map<Seq<char>, u64>;

    /// For each peer with a live session, the handle of that session.
    closed spec fn view(&self) -> Map<Seq<char>, u64> {
        peer_sessions(self.sessions)
    }
}

impl EndpointRegistry {
    /// A registry without sessions.
    pub fn new() -> (r: Self)
        ensures
            r@ == Map::<Seq<char>, u64>::empty(),
    {
        EndpointRegistry { sessions: session_table_new() }
    }

    /// The session of a peer, if it has one.
    pub fn lookup(&self, remote_device_id: &str) -> (session: Option<u64>)
        ensures
            session == entry_of(self@, remote_device_id@),
    {
        session_table_get(&self.sessions, remote_device_id)
    }

    /// Enters a session for a peer that has none. A peer that has one keeps
    /// it, and the newcomer is told which it is, so that it can close itself.
    pub fn register(&mut self, remote_device_id: &str, session: u64) -> (r: Result<
        (),
        AlreadyRegistered,
    >)
        ensures
            match entry_of(old(self)@, remote_device_id@) {
                Some(existing) => r == Err::<(), AlreadyRegistered>(
                    AlreadyRegistered { existing },
                ) && final(self)@ == old(self)@,
                None => r is Ok && final(self)@ == old(self)@.insert(remote_device_id@, session),
            },
    {
        match session_table_get(&self.sessions, remote_device_id) {
            Some(existing) => Err(AlreadyRegistered { existing }),
            None => {
                let _ =
                    session_table_insert(&mut self.sessions, remote_device_id.to_owned(), session);
                Ok(())
            },
        }
    }

    /// Takes the peer's session out, whichever it is. Returns its handle.
    /// Removing a peer that has no session changes nothing.
    pub fn remove(&mut self, remote_device_id: &str) -> (removed: Option<u64>)
        ensures
            removed == entry_of(old(self)@, remote_device_id@),
            final(self)@ == old(self)@.remove(remote_device_id@),
    {
        session_table_remove(&mut self.sessions, remote_device_id)
    }

    /// Takes the peer's session out if it is `session`; a later session of
    /// the same peer stays. This is what a failing reader or writer calls:
    /// the second of them to fail, or a session that lost the race to
    /// register, removes nothing.
    pub fn remove_session(&mut self, remote_device_id: &str, session: u64) -> (removed: bool)
        ensures
            removed == (entry_of(old(self)@, remote_device_id@) == Some(session)),
            final(self)@ == if removed {
                old(self)@.remove(remote_device_id@)
            } else {
                old(self)@
            },
    {
        match session_table_get(&self.sessions, remote_device_id) {
            Some(current) => {
                if current == session {
                    let _ = session_table_remove(&mut self.sessions, remote_device_id);
                    true
                } else {
                    false
                }
            },
            None => false,
        }
    }
}

/// Why a connection did not become a session.
#[derive(Clone, Copy, Debug, PartialEq, Eq, Structural)]
pub enum ConnectError {
    /// The handshake failed.
    Handshake(HandshakeError),
    /// The peer has a session already. Holds the handle of that session.
    AlreadyConnected { existing: u64 },
}

/// Turns a connection into a session once the answer to the handshake
/// prelude has been read. The session is entered into the registry under
/// `session` if the ids are such that a prelude can be written for them, the
/// peer accepted, and the peer has no session yet.
///
/// An id that is not ten bytes long once padded fails the handshake whatever
/// was answered, the active peer's id being looked at first. Then a peer
/// that rejected fails it. Then a peer that has a session already keeps that
/// session, and this connection is to be closed. Every failure leaves the
/// registry as it is.
pub fn connect(
    registry: &mut EndpointRegistry,
    is_active_side: bool,
    local_device_id: String,
    remote_device_id: String,
    handshake_response: u8,
    session: u64,
) -> (r: Result<EndPoint, ConnectError>)
    ensures
        match connect_error(
            old(registry)@,
            is_active_side,
            local_device_id@,
            remote_device_id@,
            handshake_response,
        ) {
            Some(e) => r matches Err(f) && f == e && final(registry)@ == old(registry)@,
            None => r matches Ok(endpoint) && endpoint@ == EndPointModel::initial(
                local_device_id@,
                remote_device_id@,
            ) && final(registry)@ == old(registry)@.insert(remote_device_id@, session),
        },
{
    match handshake_prelude(is_active_side, local_device_id.as_str(), remote_device_id.as_str()) {
        Ok(_) => {},
        Err(e) => {
            return Err(ConnectError::Handshake(e));
        },
    }
    match check_handshake_response(handshake_response) {
        Ok(()) => {},
        Err(e) => {
            return Err(ConnectError::Handshake(e));
        },
    }
    match registry.register(remote_device_id.as_str(), session) {
        Ok(()) => Ok(EndPoint::new(local_device_id, remote_device_id)),
        Err(taken) => Err(ConnectError::AlreadyConnected { existing: taken.existing }),
    }
}

/// Why a connection does not become a session, if it does not: an id of the
/// wrong length, then a rejecting answer, then a session that the peer has
/// already.
pub open spec fn connect_error(
    sessions: Map<Seq<char>, u64>,
    is_active_side: bool,
    local: Seq<char>,
    remote: Seq<char>,
    handshake_response: u8,
) -> Option<ConnectError> {
    match prelude_error(is_active_side, local, remote) {
        Some(e) => Some(ConnectError::Handshake(e)),
        None => if handshake_response != HANDSHAKE_ACCEPT {
            Some(ConnectError::Handshake(HandshakeError::Rejected))
        } else {
            match entry_of(sessions, remote) {
                Some(existing) => Some(ConnectError::AlreadyConnected { existing }),
                None => None,
            }
        },
    }
}

/// A connection whose local or remote id is not ten bytes long once padded
/// never becomes a session, whatever the peer answered and whatever the
/// registry holds.
pub proof fn lemma_connect_needs_ten_byte_ids(
    sessions: Map<Seq<char>, u64>,
    is_active_side: bool,
    local: Seq<char>,
    remote: Seq<char>,
    handshake_response: u8,
)
    requires
        id_bytes(local).len() != 10 || id_bytes(remote).len() != 10,
    ensures
        connect_error(sessions, is_active_side, local, remote, handshake_response) matches Some(
            ConnectError::Handshake(e),
        ) && (e == HandshakeError::ActiveIdLength || e == HandshakeError::PassiveIdLength),
{
}

/// Tears a session down after a fault of its reader or its writer, or on an
/// explicit close: the session is closed, so that every task that asks
/// finds it closed and stops, and it leaves the registry if it is the one
/// that the registry holds for its peer. From then on the writer is handed
/// no packet, so no further frame is written. Returns whether the session
/// left the registry. Tearing down twice changes nothing more.
pub fn teardown(registry: &mut EndpointRegistry, endpoint: &mut EndPoint, session: u64) -> (removed:
    bool)
    ensures
        final(endpoint)@ == (EndPointModel { closed: true, ..old(endpoint)@ }),
        final(endpoint)@.next_outbound() is None,
        removed == (entry_of(old(registry)@, old(endpoint)@.remote_device_id) == Some(session)),
        final(registry)@ == if removed {
            old(registry)@.remove(old(endpoint)@.remote_device_id)
        } else {
            old(registry)@
        },
{
    endpoint.close();
    registry.remove_session(endpoint.remote_device_id(), session)
}

/// The sessions that a registry holds for one peer.
pub open spec fn sessions_of(entries: Map<Seq<char>, u64>, peer: Seq<char>) -> Set<u64> {
    Set::new(|session: u64| entry_of(entries, peer) == Some(session))
}

/// No peer has more than one session.
pub proof fn lemma_at_most_one_session(entries: Map<Seq<char>, u64>, peer: Seq<char>)
    ensures
        sessions_of(entries, peer).finite(),
        sessions_of(entries, peer).len() <= 1,
{
    match entry_of(entries, peer) {
        Some(session) => {
            assert(sessions_of(entries, peer) =~= set![session]);
        },
        None => {
            assert(sessions_of(entries, peer) =~= Set::<u64>::empty());
        },
    }
}

/// Removing a peer twice is the same as removing it once.
pub proof fn lemma_remove_is_idempotent(entries: Map<Seq<char>, u64>, peer: Seq<char>)
    ensures
        entries.remove(peer).remove(peer) == entries.remove(peer),
        entry_of(entries.remove(peer), peer) == None::<u64>,
{
    assert(entries.remove(peer).remove(peer) =~= entries.remove(peer));
}

} // verus!
