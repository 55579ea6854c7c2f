//! The sealed transport: what the writer puts on the stream for a packet and
//! what the reader makes of the bytes that arrive.
//!
//! Each direction has its own key and its own nonce counter. The counter
//! moves by one for every frame sealed and for every frame opened, so both
//! ends stay in step as long as frames arrive in the order they were sent.

use vstd::prelude::*;
use crate::codec::packet::{
    deserialize, deserialized, lemma_serialize_round_trip, ser_packet, serialize,
};
use crate::crypto::{opened_bytes, sealed_bytes, Cipher, SessionKey, TAG_LEN};
use crate::endian::{le_bytes, lemma_le_bytes_len};
use crate::frame::{
    decode_frame, encode_frame, frame_bytes, lemma_frame_round_trip, parse_frame, FrameError,
    FRAME_HEADER_LEN, MAX_FRAME_LEN,
};
use crate::message::{EndPointMessagePacket, EndPointMessagePacketView};
use crate::nonce::{nonce_bytes, nonce_space, NonceSequencer};

verus! {

/// A fault of the transport. Each one ends the session.
#[derive(Clone, Copy, Debug, PartialEq, Eq, Structural)]
pub enum TransportError {
    /// Every nonce of the key has been used.
    NonceExhausted,
    /// The cipher refused to seal.
    SealFailed,
    /// A frame body is longer than 16 MiB.
    FrameTooLong,
    /// A frame did not open under the key and the expected nonce.
    OpenFailed,
}

/// What an opened frame held.
#[derive(Debug)]
pub enum Received {
    /// A packet.
    Packet(EndPointMessagePacket),
    /// Bytes that are no packet. The frame is dropped and the session goes on.
    Undecodable,
}

impl Received {
    /// The packet, by its view, if there is one.
    pub open spec fn packet(self) -> Option<EndPointMessagePacketView> {
        match self {
            Received::Packet(p) => Some(p@),
            Received::Undecodable => None,
        }
    }
}

/// The frame that the writer emits for `packet` when its counter stands at
/// `position`, or the fault that ends the session instead.
pub open spec fn sealed_frame(
    cipher: Cipher,
    key: Seq<u8>,
    position: nat,
    packet: EndPointMessagePacketView,
) -> Result<Seq<u8>, TransportError> {
    if position >= nonce_space() {
        Err(TransportError::NonceExhausted)
    } else {
        match sealed_bytes(cipher, key, nonce_bytes(position), ser_packet(packet)) {
            None => Err(TransportError::SealFailed),
            Some(sealed) => if sealed.len() > MAX_FRAME_LEN {
                Err(TransportError::FrameTooLong)
            } else {
                Ok(frame_bytes(sealed))
            },
        }
    }
}

/// Whether `buf` starts with the frame that the writer emits for `packet`
/// when its counter stands at `position`.
pub open spec fn starts_with_frame_of(
    buf: Seq<u8>,
    cipher: Cipher,
    key: Seq<u8>,
    position: nat,
    packet: EndPointMessagePacketView,
) -> bool {
    match sealed_frame(cipher, key, position, packet) {
        Ok(frame) => frame.is_prefix_of(buf),
        Err(_) => false,
    }
}

/// The length of the frame that the writer emits for `packet` when its
/// counter stands at `position`.
pub open spec fn sealed_frame_len(
    cipher: Cipher,
    key: Seq<u8>,
    position: nat,
    packet: EndPointMessagePacketView,
) -> nat {
    match sealed_frame(cipher, key, position, packet) {
        Ok(frame) => frame.len(),
        Err(_) => 0,
    }
}

/// What the reader makes of a frame body when its counter stands at
/// `position`: a packet, bytes that are no packet (`Ok(None)`), or the fault
/// that ends the session.
pub open spec fn opened_packet(
    cipher: Cipher,
    key: Seq<u8>,
    position: nat,
    body: Seq<u8>,
) -> Result<
    Option<EndPointMessagePacketView>,
    TransportError,
> {
    if position >= nonce_space() {
        Err(TransportError::NonceExhausted)
    } else {
        match opened_bytes(cipher, key, nonce_bytes(position), body) {
            None => Err(TransportError::OpenFailed),
            Some(plain) => Ok(deserialized(plain)),
        }
    }
}

/// The sealing half of a session: the writer's key and nonce counter.
pub struct FrameSealer {
    key: SessionKey,
    nonces: NonceSequencer,
}

impl FrameSealer {
    /// The cipher of the key.
    pub closed spec fn cipher(&self) -> Cipher {
        self.key.cipher()
    }

    /// The key material.
    pub closed spec fn key_bytes(&self) -> Seq<u8> {
        self.key.key_bytes()
    }

    /// The number of the nonce that seals the next frame.
    pub closed spec fn position(&self) -> nat {
        self.nonces.position()
    }

    /// Puts a key together with the counter over its nonces.
    pub fn new(key: SessionKey, nonces: NonceSequencer) -> (s: Self)
        ensures
            s.cipher() == key.cipher(),
            s.key_bytes() == key.key_bytes(),
            s.position() == nonces.position(),
    {
        FrameSealer { key, nonces }
    }

    /// Turns a packet into the bytes of one frame: serialized, sealed under
    /// the next nonce, and length-prefixed. The frame is the four bytes of
    /// the length field, which holds the length of the serialized packet
    /// plus that of the tag, then as many bytes as the field says.
    ///
    /// The counter moves by one unless all nonces are used. Any error ends
    /// the session, so the writer stops at the first.
    pub fn seal_packet(&mut self, packet: &EndPointMessagePacket) -> (r: Result<
        Vec<u8>,
        TransportError,
    >)
        ensures
            final(self).cipher() == old(self).cipher(),
            final(self).key_bytes() == old(self).key_bytes(),
            old(self).position() <= nonce_space(),
            final(self).position() == if old(self).position() < nonce_space() {
                old(self).position() + 1
            } else {
                old(self).position()
            },
            packet@.fits(),
            match sealed_frame(
                old(self).cipher(),
                old(self).key_bytes(),
                old(self).position(),
                packet@,
            ) {
                Ok(frame) => r matches Ok(out) && out@ == frame,
                Err(e) => r matches Err(f) && f == e,
            },
            r matches Ok(out) ==> {
                &&& out@.len() == FRAME_HEADER_LEN + ser_packet(packet@).len() + TAG_LEN
                &&& out@.subrange(0, 4) == le_bytes(
                    (ser_packet(packet@).len() + TAG_LEN) as nat,
                    4,
                )
                &&& ser_packet(packet@).len() + TAG_LEN <= MAX_FRAME_LEN
            },
            r matches Err(TransportError::FrameTooLong) ==> ser_packet(packet@).len() + TAG_LEN
                > MAX_FRAME_LEN,
    {
        let plain: Vec<u8> = serialize(packet);
        let nonce: [u8; 12] = match self.nonces.advance() {
            Ok(nonce) => nonce,
            Err(_) => {
                return Err(TransportError::NonceExhausted);
            },
        };
        let sealed: Vec<u8> = match self.key.seal(&nonce, plain) {
            Ok(sealed) => sealed,
            Err(_) => {
                return Err(TransportError::SealFailed);
            },
        };
        match encode_frame(sealed.as_slice()) {
            Ok(frame) => {
                proof {
                    lemma_le_bytes_len(sealed@.len(), 4);
                    assert(frame@.subrange(0, 4) =~= le_bytes(sealed@.len(), 4));
                }
                Ok(frame)
            },
            Err(_) => Err(TransportError::FrameTooLong),
        }
    }
}

/// The opening half of a session: the reader's key and nonce counter.
pub struct FrameOpener {
    key: SessionKey,
    nonces: NonceSequencer,
}

impl FrameOpener {
    /// The cipher of the key.
    pub closed spec fn cipher(&self) -> Cipher {
        self.key.cipher()
    }

    /// The key material.
    pub closed spec fn key_bytes(&self) -> Seq<u8> {
        self.key.key_bytes()
    }

    /// The number of the nonce that opens the next frame.
    pub closed spec fn position(&self) -> nat {
        self.nonces.position()
    }

    /// Puts a key together with the counter over its nonces.
    pub fn new(key: SessionKey, nonces: NonceSequencer) -> (s: Self)
        ensures
            s.cipher() == key.cipher(),
            s.key_bytes() == key.key_bytes(),
            s.position() == nonces.position(),
    {
        FrameOpener { key, nonces }
    }

    /// Opens the body of one frame under the next nonce and reads the packet
    /// in it.
    ///
    /// The counter moves by one unless all nonces are used. A body that does
    /// not open ends the session; a body that opens to something that is no
    /// packet is reported and costs only that frame.
    pub fn open_body(&mut self, body: Vec<u8>) -> (r: Result<Received, TransportError>)
        ensures
            final(self).cipher() == old(self).cipher(),
            final(self).key_bytes() == old(self).key_bytes(),
            old(self).position() <= nonce_space(),
            final(self).position() == if old(self).position() < nonce_space() {
                old(self).position() + 1
            } else {
                old(self).position()
            },
            match opened_packet(
                old(self).cipher(),
                old(self).key_bytes(),
                old(self).position(),
                body@,
            ) {
                Ok(packet) => r matches Ok(received) && received.packet() == packet,
                Err(e) => r matches Err(f) && f == e,
            },
            forall|plain: Seq<u8>|
                old(self).position() < nonce_space() && sealed_bytes(
                    old(self).cipher(),
                    old(self).key_bytes(),
                    nonce_bytes(old(self).position()),
                    plain,
                ) == Some(body@) ==> (r matches Ok(received) && received.packet() == deserialized(
                    plain,
                )),
    {
        let nonce: [u8; 12] = match self.nonces.advance() {
            Ok(nonce) => nonce,
            Err(_) => {
                return Err(TransportError::NonceExhausted);
            },
        };
        let plain: Vec<u8> = match self.key.open(&nonce, body) {
            Ok(plain) => plain,
            Err(_) => {
                return Err(TransportError::OpenFailed);
            },
        };
        match deserialize(plain.as_slice()) {
            Ok(packet) => Ok(Received::Packet(packet)),
            Err(_) => Ok(Received::Undecodable),
        }
    }

    /// Takes the next frame off the front of the receive buffer, if a whole
    /// one has arrived, and opens it.
    ///
    /// `Ok(None)` asks for more bytes and changes nothing. `Ok(Some((received,
    /// consumed)))` hands out what the frame held; the caller drops the first
    /// `consumed` bytes of its buffer. A frame that claims more than 16 MiB,
    /// or does not open, ends the session.
    ///
    /// The frame that a sealer with the same cipher, key and counter makes of
    /// a packet is read back as that packet, whatever follows it in the
    /// buffer, and exactly the frame is consumed.
    pub fn receive(&mut self, buf: &[u8]) -> (r: Result<Option<(Received, usize)>, TransportError>)
        ensures
            final(self).cipher() == old(self).cipher(),
            final(self).key_bytes() == old(self).key_bytes(),
            match parse_frame(buf@) {
                Err(_) => r == Err::<Option<(Received, usize)>, TransportError>(
                    TransportError::FrameTooLong,
                ) && final(self).position() == old(self).position(),
                Ok(None) => r matches Ok(None) && final(self).position() == old(self).position(),
                Ok(Some((body, consumed))) => {
                    &&& final(self).position() == if old(self).position() < nonce_space() {
                        old(self).position() + 1
                    } else {
                        old(self).position()
                    }
                    &&& match opened_packet(
                        old(self).cipher(),
                        old(self).key_bytes(),
                        old(self).position(),
                        body,
                    ) {
                        Ok(packet) => r matches Ok(Some((received, n))) && received.packet()
                            == packet && n == consumed,
                        Err(e) => r matches Err(f) && f == e,
                    }
                },
            },
            forall|packet: EndPointMessagePacketView|
                packet.fits() && #[trigger] starts_with_frame_of(
                    buf@,
                    old(self).cipher(),
                    old(self).key_bytes(),
                    old(self).position(),
                    packet,
                ) ==> (r matches Ok(Some((received, n))) && received.packet() == Some(packet) && n
                    == sealed_frame_len(
                    old(self).cipher(),
                    old(self).key_bytes(),
                    old(self).position(),
                    packet,
                )),
    {
        let ghost cipher = self.cipher();
        let ghost key = self.key_bytes();
        let ghost position = self.position();
        proof {
            assert forall|packet: EndPointMessagePacketView|
                packet.fits() && #[trigger] starts_with_frame_of(
                    buf@,
                    cipher,
                    key,
                    position,
                    packet,
                ) implies reads_back(buf@, cipher, key, position, packet) by {
                lemma_sealed_frame_parses(buf@, cipher, key, position, packet);
                lemma_serialize_round_trip(packet);
            }
        }
        match decode_frame(buf) {
            Err(_) => Err(TransportError::FrameTooLong),
            Ok(None) => Ok(None),
            Ok(Some((body, consumed))) => {
                match self.open_body(body) {
                    Ok(received) => Ok(Some((received, consumed))),
                    Err(e) => Err(e),
                }
            },
        }
    }
}

/// What the framing layer and the format make of a buffer that starts with
/// the frame of `packet`: one whole frame at the front, whose body is the
/// sealed form of the serialized packet, and a serialized packet that
/// deserializes to `packet`.
pub open spec fn reads_back(
    buf: Seq<u8>,
    cipher: Cipher,
    key: Seq<u8>,
    position: nat,
    packet: EndPointMessagePacketView,
) -> bool {
    &&& position < nonce_space()
    &&& sealed_bytes(cipher, key, nonce_bytes(position), ser_packet(packet)) matches Some(sealed)
    &&& parse_frame(buf) == Ok::<Option<(Seq<u8>, nat)>, FrameError>(
        Some((sealed, sealed_frame_len(cipher, key, position, packet))),
    )
    &&& deserialized(ser_packet(packet)) == Some(packet)
}

/// A buffer that starts with a frame that a sealer emitted holds, to the
/// framing layer, one whole frame at its front, whose body is the sealed
/// packet.
pub proof fn lemma_sealed_frame_parses(
    buf: Seq<u8>,
    cipher: Cipher,
    key: Seq<u8>,
    position: nat,
    packet: EndPointMessagePacketView,
)
    ensures
        starts_with_frame_of(buf, cipher, key, position, packet) ==> {
            &&& position < nonce_space()
            &&& sealed_bytes(cipher, key, nonce_bytes(position), ser_packet(packet)) matches Some(
                sealed,
            )
            &&& parse_frame(buf) == Ok::<Option<(Seq<u8>, nat)>, FrameError>(
                Some((sealed, sealed_frame_len(cipher, key, position, packet))),
            )
        },
{
    if starts_with_frame_of(buf, cipher, key, position, packet) {
        let sealed = sealed_bytes(cipher, key, nonce_bytes(position), ser_packet(packet)).unwrap();
        let frame = frame_bytes(sealed);
        let rest = buf.skip(frame.len() as int);
        lemma_frame_round_trip(sealed, rest);
        lemma_le_bytes_len(sealed.len(), 4);
        assert(frame + rest =~= buf);
    }
}

} // verus!
