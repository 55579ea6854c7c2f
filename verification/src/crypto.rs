//! Authenticated encryption of one frame under a session key and a nonce.
//!
//! The ciphers are those of `ring`. Nothing here proves anything about them:
//! what a sealed frame looks like is a name, and the facts assumed of that
//! name are listed at the two functions that call into `ring`.

use vstd::prelude::*;

verus! {

/// Length of a session key in bytes, for both ciphers.
pub const KEY_LEN: usize = 32;

/// Length of the authentication tag that sealing appends.
pub const TAG_LEN: usize = 16;

/// The cipher that signaling agreed on for a session.
#[derive(Clone, Copy, Debug, PartialEq, Eq, Structural)]
pub enum Cipher {
    ChaCha20Poly1305,
    Aes256Gcm,
}

/// Why sealing or opening did not give a result.
#[derive(Clone, Copy, Debug, PartialEq, Eq, Structural)]
pub enum CryptoError {
    /// The cipher refused to seal the plaintext.
    SealFailed,
    /// The frame is shorter than a tag, was sealed under another key or nonce,
    /// or was altered on the way.
    OpenFailed,
}

/// What `ring::aead::LessSafeKey::seal_in_place_append_tag` leaves in its
/// buffer for this cipher, key, nonce and plaintext, with no associated
/// data: the ciphertext followed by the tag. `None` where it reports an error.
pub uninterp spec fn sealed_bytes(
    cipher: Cipher,
    key: Seq<u8>,
    nonce: Seq<u8>,
    plaintext: Seq<u8>,
) -> Option<Seq<u8>>;

/// The plaintext that `ring::aead::LessSafeKey::open_in_place` returns for
/// this cipher, key, nonce and sealed input, with no associated data. `None`
/// where it reports an error.
pub uninterp spec fn opened_bytes(
    cipher: Cipher,
    key: Seq<u8>,
    nonce: Seq<u8>,
    sealed: Seq<u8>,
) -> Option<Seq<u8>>;

/// Calls `ring::aead::LessSafeKey::seal_in_place_append_tag` on a key built
/// from `key` by `ring::aead::UnboundKey::new`.
///
/// Assumed: the outcome is `sealed_bytes` of the arguments, and a sealed
/// frame is the plaintext's length plus one tag long.
#[verifier::external_body]
fn ring_seal(cipher: Cipher, key: &[u8], nonce: &[u8; 12], plaintext: Vec<u8>) -> (r: Option<
    Vec<u8>,
>)
    ensures
        r is Some <==> sealed_bytes(cipher, key@, nonce@, plaintext@) is Some,
        r matches Some(sealed) ==> {
            &&& Some(sealed@) == sealed_bytes(cipher, key@, nonce@, plaintext@)
            &&& sealed@.len() == plaintext@.len() + TAG_LEN
        },
{
    let algorithm = match cipher {
        Cipher::ChaCha20Poly1305 => &ring::aead::CHACHA20_POLY1305,
        Cipher::Aes256Gcm => &ring::aead::AES_256_GCM,
    };
    let key = ring::aead::LessSafeKey::new(ring::aead::UnboundKey::new(algorithm, key).ok()?);
    let nonce = ring::aead::Nonce::assume_unique_for_key(*nonce);
    let mut in_out = plaintext;
    key.seal_in_place_append_tag(nonce, ring::aead::Aad::empty(), &mut in_out).ok()?;
    Some(in_out)
}

/// Calls `ring::aead::LessSafeKey::open_in_place` on a key built from `key`
/// by `ring::aead::UnboundKey::new`.
///
/// Assumed: the outcome is `opened_bytes` of the arguments; a plaintext is
/// one tag shorter than its sealed frame; and opening undoes sealing: what
/// was sealed under this cipher, key and nonce opens to the plaintext it was
/// sealed from.
#[verifier::external_body]
fn ring_open(cipher: Cipher, key: &[u8], nonce: &[u8; 12], sealed: Vec<u8>) -> (r: Option<Vec<u8>>)
    ensures
        r is Some <==> opened_bytes(cipher, key@, nonce@, sealed@) is Some,
        r matches Some(plaintext) ==> {
            &&& Some(plaintext@) == opened_bytes(cipher, key@, nonce@, sealed@)
            &&& plaintext@.len() + TAG_LEN == sealed@.len()
        },
        r is None ==> forall|plaintext: Seq<u8>|
            sealed_bytes(cipher, key@, nonce@, plaintext) != Some(sealed@),
        r matches Some(opened) ==> forall|plaintext: Seq<u8>|
            sealed_bytes(cipher, key@, nonce@, plaintext) == Some(sealed@) ==> opened@
                == plaintext,
{
    let algorithm = match cipher {
        Cipher::ChaCha20Poly1305 => &ring::aead::CHACHA20_POLY1305,
        Cipher::Aes256Gcm => &ring::aead::AES_256_GCM,
    };
    let key = ring::aead::LessSafeKey::new(ring::aead::UnboundKey::new(algorithm, key).ok()?);
    let nonce = ring::aead::Nonce::assume_unique_for_key(*nonce);
    let mut in_out = sealed;
    let len = key.open_in_place(nonce, ring::aead::Aad::empty(), &mut in_out).ok()?.len();
    in_out.truncate(len);
    Some(in_out)
}

/// The key of one direction of a session, with the cipher it belongs to.
pub struct SessionKey {
    cipher: Cipher,
    bytes: Vec<u8>,
}

impl SessionKey {
    #[verifier::type_invariant]
    spec fn has_key_len(&self) -> bool {
        self.bytes@.len() == KEY_LEN
    }

    /// The cipher of this key.
    pub closed spec fn cipher(&self) -> Cipher {
        self.cipher
    }

    /// The bytes of key material, `KEY_LEN` of them.
    pub closed spec fn key_bytes(&self) -> Seq<u8> {
        self.bytes@
    }

    /// Takes key material from signaling. `None` unless it is exactly `KEY_LEN` bytes.
    pub fn new(cipher: Cipher, bytes: Vec<u8>) -> (key: Option<Self>)
        ensures
            key is Some <==> bytes@.len() == KEY_LEN,
            key matches Some(k) ==> k.cipher() == cipher && k.key_bytes() == bytes@,
    {
        if bytes.len() == KEY_LEN {
            Some(SessionKey { cipher, bytes })
        } else {
            None
        }
    }

    /// Seals `plaintext` under `nonce` with no associated data. The result is
    /// the ciphertext followed by a 16-byte tag.
    pub fn seal(&self, nonce: &[u8; 12], plaintext: Vec<u8>) -> (r: Result<Vec<u8>, CryptoError>)
        ensures
            match sealed_bytes(self.cipher(), self.key_bytes(), nonce@, plaintext@) {
                Some(sealed) => r matches Ok(out) && out@ == sealed && sealed.len()
                    == plaintext@.len() + TAG_LEN,
                None => r == Err::<Vec<u8>, CryptoError>(CryptoError::SealFailed),
            },
    {
        match ring_seal(self.cipher, self.bytes.as_slice(), nonce, plaintext) {
            Some(sealed) => Ok(sealed),
            None => Err(CryptoError::SealFailed),
        }
    }

    /// Checks the tag of `sealed` under `nonce` and gives back the plaintext.
    ///
    /// Whatever `seal` produced under the same cipher, key and nonce opens to
    /// the plaintext that went in.
    pub fn open(&self, nonce: &[u8; 12], sealed: Vec<u8>) -> (r: Result<Vec<u8>, CryptoError>)
        ensures
            match opened_bytes(self.cipher(), self.key_bytes(), nonce@, sealed@) {
                Some(plaintext) => r matches Ok(out) && out@ == plaintext && plaintext.len()
                    + TAG_LEN
                    == sealed@.len(),
                None => r == Err::<Vec<u8>, CryptoError>(CryptoError::OpenFailed),
            },
            forall|plaintext: Seq<u8>|
                sealed_bytes(self.cipher(), self.key_bytes(), nonce@, plaintext) == Some(sealed@)
                    ==> (r matches Ok(out) && out@ == plaintext),
    {
        match ring_open(self.cipher, self.bytes.as_slice(), nonce, sealed) {
            Some(plaintext) => Ok(plaintext),
            None => Err(CryptoError::OpenFailed),
        }
    }
}

} // verus!
