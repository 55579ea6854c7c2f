//! The counter that hands out one fresh 96-bit nonce per sealed or opened frame.

use vstd::prelude::*;
use crate::endian::{
    le_bytes, le_value, lemma_le_bytes_len, lemma_le_value_of_bytes, lemma_radix_pow_values, put_le,
};

verus! {

/// Length of a nonce in bytes.
pub const NONCE_LEN: usize = 12;

/// The number of distinct nonces: 2 to the power 96.
pub open spec fn nonce_space() -> nat {
    0x1_0000_0000_0000_0000_0000_0000
}

/// The wire form of the nonce with number `counter`: twelve bytes, least significant first.
pub open spec fn nonce_bytes(counter: nat) -> Seq<u8> {
    le_bytes(counter, 12)
}

/// The number that a nonce stands for.
pub open spec fn nonce_value(nonce: Seq<u8>) -> nat {
    le_value(nonce)
}

/// Raised when every nonce of the key has been used: the counter would wrap.
#[derive(Clone, Copy, Debug, PartialEq, Eq, Structural)]
pub struct NonceExhausted;

/// A counter over the nonces of one key and one direction.
#[derive(Debug)]
pub struct NonceSequencer {
    next: u128,
}

impl NonceSequencer {
    #[verifier::type_invariant]
    spec fn within_space(&self) -> bool {
        self.next <= nonce_space()
    }

    /// The number of the nonce that the next `advance` hands out; `nonce_space()`
    /// once all are used.
    pub closed spec fn position(&self) -> nat {
        self.next as nat
    }

    /// A sequencer that starts at nonce 0.
    pub fn new() -> (s: Self)
        ensures
            s.position() == 0,
    {
        NonceSequencer { next: 0 }
    }

    /// A sequencer that starts at `start`, for peers that agree on another
    /// starting point than 0. `None` when `start` is no 96-bit number.
    pub fn starting_at(start: u128) -> (s: Option<Self>)
        ensures
            start < nonce_space() <==> s is Some,
            s matches Some(seq) ==> seq.position() == start,
    {
        if start < 0x1_0000_0000_0000_0000_0000_0000 {
            Some(NonceSequencer { next: start })
        } else {
            None
        }
    }

    /// The number of the next nonce, unless all are used.
    pub fn peek(&self) -> (n: Option<u128>)
        ensures
            self.position() <= nonce_space(),
            n == if self.position() < nonce_space() {
                Some(self.position() as u128)
            } else {
                None
            },
    {
        proof {
            use_type_invariant(self);
        }
        if self.next < 0x1_0000_0000_0000_0000_0000_0000 {
            Some(self.next)
        } else {
            None
        }
    }

    /// Hands out the next nonce and steps the counter by one. After the last
    /// nonce, 2^96 - 1, it fails for good and leaves the counter where it is.
    pub fn advance(&mut self) -> (r: Result<[u8; 12], NonceExhausted>)
        ensures
            old(self).position() <= nonce_space(),
            match r {
                Ok(nonce) => {
                    &&& old(self).position() < nonce_space()
                    &&& nonce@ == nonce_bytes(old(self).position())
                    &&& nonce_value(nonce@) == old(self).position()
                    &&& final(self).position() == old(self).position() + 1
                },
                Err(_) => {
                    &&& old(self).position() == nonce_space()
                    &&& final(self).position() == old(self).position()
                },
            },
    {
        proof {
            use_type_invariant(&*self);
        }
        if self.next >= 0x1_0000_0000_0000_0000_0000_0000 {
            return Err(NonceExhausted);
        }
        let current: u128 = self.next;
        let mut buf: Vec<u8> = Vec::new();
        put_le(&mut buf, current, 12);
        proof {
            lemma_le_bytes_len(current as nat, 12);
            lemma_radix_pow_values();
            lemma_le_value_of_bytes(current as nat, 12);
        }
        let mut nonce: [u8; 12] = [0u8; 12];
        let mut i: usize = 0;
        while i < 12
            invariant
                i <= 12,
                buf@.len() == 12,
                forall|j: int| 0 <= j < i ==> nonce@[j] == buf@[j],
            decreases 12 - i,
        {
            nonce[i] = buf[i];
            i = i + 1;
        }
        assert(nonce@ =~= buf@);
        self.next = current + 1;
        Ok(nonce)
    }
}

/// The nonces of one key go up by one from frame to frame: as numbers, the
/// nonce of a later frame is greater than that of an earlier one, and the
/// nonce of the next frame is greater by exactly one.
pub proof fn lemma_nonces_increase(start: nat, earlier: nat, later: nat)
    requires
        earlier < later,
        start + later < nonce_space(),
    ensures
        nonce_value(nonce_bytes(start + earlier)) == start + earlier,
        nonce_value(nonce_bytes(start + later)) == start + later,
        nonce_value(nonce_bytes(start + earlier)) < nonce_value(nonce_bytes(start + later)),
        later == earlier + 1 ==> nonce_value(nonce_bytes(start + later)) == nonce_value(
            nonce_bytes(start + earlier),
        ) + 1,
        nonce_bytes(start + earlier) != nonce_bytes(start + later),
{
    lemma_radix_pow_values();
    lemma_le_value_of_bytes(start + earlier, 12);
    lemma_le_value_of_bytes(start + later, 12);
}

} // verus!
