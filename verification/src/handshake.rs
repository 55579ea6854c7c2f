//! The exchange that precedes all framed traffic: twenty bytes naming the
//! active and the passive peer, answered by one byte.

use vstd::prelude::*;
use vstd::string::{StrSliceExecFns, StringExecFns};
use vstd::utf8::{encode_utf8, is_ascii_chars, is_ascii_chars_encode_utf8};

verus! {

/// Length of a peer id on the wire.
pub const DEVICE_ID_LEN: usize = 10;

/// Length of the prelude: the active peer's id, then the passive peer's.
pub const PRELUDE_LEN: usize = 20;

/// The one byte by which the passive side accepts.
pub const HANDSHAKE_ACCEPT: u8 = 1;

/// The byte by which this implementation rejects. A peer treats every byte
/// other than `HANDSHAKE_ACCEPT` as a rejection.
pub const HANDSHAKE_REJECT: u8 = 0;

/// Why a handshake did not go through.
#[derive(Clone, Copy, Debug, PartialEq, Eq, Structural)]
pub enum HandshakeError {
    /// The active peer's id is not ten bytes long once padded.
    ActiveIdLength,
    /// The passive peer's id is not ten bytes long once padded.
    PassiveIdLength,
    /// The passive side answered with something other than `HANDSHAKE_ACCEPT`.
    Rejected,
}

/// `id` with zeros in front until it is ten characters long; unchanged if it
/// already is that long or longer.
pub open spec fn padded_id(id: Seq<char>) -> Seq<char> {
    if id.len() >= 10 {
        id
    } else {
        Seq::new((10 - id.len()) as nat, |i: int| '0') + id
    }
}

/// The bytes that stand for `id` in the prelude.
pub open spec fn id_bytes(id: Seq<char>) -> Seq<u8> {
    encode_utf8(padded_id(id))
}

/// The id of the active peer, given which side this is.
pub open spec fn active_id(is_active_side: bool, local: Seq<char>, remote: Seq<char>) -> Seq<
    char,
> {
    if is_active_side {
        local
    } else {
        remote
    }
}

/// The id of the passive peer, given which side this is.
pub open spec fn passive_id(is_active_side: bool, local: Seq<char>, remote: Seq<char>) -> Seq<
    char,
> {
    if is_active_side {
        remote
    } else {
        local
    }
}

/// An id of ASCII characters takes one byte for each character, so with ten
/// characters or fewer it is ten bytes long once padded, each the code of its
/// character, and the handshake does not fail on it; with more than ten it
/// is too long.
pub proof fn lemma_ascii_id_bytes(id: Seq<char>)
    requires
        is_ascii_chars(id),
    ensures
        id.len() <= 10 ==> id_bytes(id).len() == 10,
        id.len() > 10 ==> id_bytes(id).len() == id.len(),
        forall|i: int| 0 <= i < padded_id(id).len() ==> id_bytes(id)[i] == padded_id(id)[i] as u8,
        forall|i: int| 0 <= i < 10 - id.len() ==> id_bytes(id)[i] == 0x30,
{
    let padded = padded_id(id);
    assert(is_ascii_chars(padded)) by {
        assert forall|i: int| 0 <= i < padded.len() implies '\0' <= #[trigger] padded[i]
            <= '\u{7f}' by {
            if id.len() < 10 && i >= 10 - id.len() {
                assert(padded[i] == id[i - (10 - id.len())]);
            }
        }
    }
    is_ascii_chars_encode_utf8(padded);
    assert forall|i: int| 0 <= i < 10 - id.len() implies id_bytes(id)[i] == 0x30 by {
        assert(padded[i] == '0');
    }
}

/// The padded id as bytes.
pub fn device_id_bytes(id: &str) -> (bytes: Vec<u8>)
    ensures
        bytes@ == id_bytes(id@),
{
    let chars: usize = id.unicode_len();
    let mut padded: String = String::new();
    if chars < 10 {
        let mut i: usize = chars;
        while i < 10
            invariant
                chars <= i <= 10,
                padded@ == Seq::new((i - chars) as nat, |j: int| '0'),
            decreases 10 - i,
        {
            padded.append("0");
            proof {
                reveal_strlit("0");
                assert("0"@ =~= seq!['0']);
                assert(padded@ =~= Seq::new((i + 1 - chars) as nat, |j: int| '0'));
            }
            i = i + 1;
        }
    }
    padded.append(id);
    assert(padded@ =~= padded_id(id@));
    padded.as_str().as_bytes_vec()
}

/// Why no prelude can be written for a pair of ids, if none can: an id that
/// is not exactly ten bytes long once padded fails the handshake, and the
/// active peer's id is looked at first.
pub open spec fn prelude_error(is_active_side: bool, local: Seq<char>, remote: Seq<char>) -> Option<
    HandshakeError,
> {
    if id_bytes(active_id(is_active_side, local, remote)).len() != 10 {
        Some(HandshakeError::ActiveIdLength)
    } else if id_bytes(passive_id(is_active_side, local, remote)).len() != 10 {
        Some(HandshakeError::PassiveIdLength)
    } else {
        None
    }
}

/// The prelude for a pair of ids: the active peer's padded id, then the
/// passive peer's.
pub open spec fn prelude_bytes(is_active_side: bool, local: Seq<char>, remote: Seq<char>) -> Seq<
    u8,
> {
    id_bytes(active_id(is_active_side, local, remote)) + id_bytes(
        passive_id(is_active_side, local, remote),
    )
}

/// The twenty bytes that both sides write before any frame: the active
/// peer's padded id, then the passive peer's, whichever side this is.
///
/// An id that is not exactly ten bytes long once padded fails the handshake;
/// the active peer's id is looked at first.
pub fn handshake_prelude(is_active_side: bool, local_device_id: &str, remote_device_id: &str) -> (r:
    Result<Vec<u8>, HandshakeError>)
    ensures
        match prelude_error(is_active_side, local_device_id@, remote_device_id@) {
            Some(e) => r matches Err(f) && f == e,
            None => r matches Ok(prelude) && prelude@ == prelude_bytes(
                is_active_side,
                local_device_id@,
                remote_device_id@,
            ) && prelude@.len() == 20,
        },
{
    let active: Vec<u8> = if is_active_side {
        device_id_bytes(local_device_id)
    } else {
        device_id_bytes(remote_device_id)
    };
    let passive: Vec<u8> = if is_active_side {
        device_id_bytes(remote_device_id)
    } else {
        device_id_bytes(local_device_id)
    };
    if active.len() != 10 {
        return Err(HandshakeError::ActiveIdLength);
    }
    if passive.len() != 10 {
        return Err(HandshakeError::PassiveIdLength);
    }
    let ghost first = active@;
    let mut prelude: Vec<u8> = active;
    let mut i: usize = 0;
    while i < 10
        invariant
            i <= 10,
            passive@.len() == 10,
            prelude@ == first + passive@.subrange(0, i as int),
        decreases 10 - i,
    {
        prelude.push(passive[i]);
        assert(prelude@ =~= first + passive@.subrange(0, i + 1));
        i = i + 1;
    }
    assert(passive@.subrange(0, 10) =~= passive@);
    Ok(prelude)
}

/// The answer of the passive side to a prelude it has read: it accepts when
/// the prelude is twenty bytes long and names this peer in the passive slot.
pub fn handshake_reply(prelude: &[u8], own_device_id: &str) -> (reply: u8)
    ensures
        reply == if prelude@.len() == 20 && prelude@.subrange(10, 20) == id_bytes(
            own_device_id@,
        ) {
            HANDSHAKE_ACCEPT
        } else {
            HANDSHAKE_REJECT
        },
{
    if prelude.len() != 20 {
        return HANDSHAKE_REJECT;
    }
    let own: Vec<u8> = device_id_bytes(own_device_id);
    if own.len() != 10 {
        return HANDSHAKE_REJECT;
    }
    let mut i: usize = 0;
    while i < 10
        invariant
            i <= 10,
            own@.len() == 10,
            own@ == id_bytes(own_device_id@),
            prelude@.len() == 20,
            forall|j: int| 0 <= j < i ==> prelude@[10 + j] == own@[j],
        decreases 10 - i,
    {
        if prelude[10 + i] != own[i] {
            assert(prelude@.subrange(10, 20)[i as int] != own@[i as int]);
            return HANDSHAKE_REJECT;
        }
        i = i + 1;
    }
    assert(prelude@.subrange(10, 20) =~= own@);
    HANDSHAKE_ACCEPT
}

/// What the one-byte answer means to the side that sent the prelude.
pub fn check_handshake_response(response: u8) -> (r: Result<(), HandshakeError>)
    ensures
        r is Ok <==> response == HANDSHAKE_ACCEPT,
        r is Err ==> r == Err::<(), HandshakeError>(HandshakeError::Rejected),
{
    if response == HANDSHAKE_ACCEPT {
        Ok(())
    } else {
        Err(HandshakeError::Rejected)
    }
}

} // verus!
