use vstd::prelude::*;

use crate::bytes::clone_bytes;
use crate::crypto::NONCE_LEN;
use crate::error::AeadError;

verus! {

/// A single-use nonce sequence: it stores one fixed nonce and hands it out
/// exactly once. A (key, nonce) pair must never serve more than one seal
/// operation — reuse silently destroys the confidentiality and authenticity
/// of Galois/Counter Mode — so a second `advance` is a checked error rather
/// than a silent repeat.
pub struct SingleNonceSequence {
    nonce: Vec<u8>,
    used: bool,
}

impl SingleNonceSequence {
    #[verifier::type_invariant]
    spec fn inv(self) -> bool {
        self.nonce@.len() == NONCE_LEN
    }

    /// The stored nonce bytes.
    pub closed spec fn nonce_value(&self) -> Seq<u8> {
        self.nonce@
    }

    /// Whether the one permitted `advance` has already happened.
    pub closed spec fn spent(&self) -> bool {
        self.used
    }

    /// Builds a sequence around one 96-bit nonce; any other length is rejected.
    pub fn new(nonce: Vec<u8>) -> (r: Result<SingleNonceSequence, AeadError>)
        ensures
            nonce@.len() == NONCE_LEN ==> r is Ok && r->Ok_0.nonce_value() == nonce@
                && !r->Ok_0.spent(),
            nonce@.len() != NONCE_LEN ==> r is Err
                && r->Err_0 == AeadError::InvalidNonceLength,
    {
        if nonce.len() != NONCE_LEN {
            Err(AeadError::InvalidNonceLength)
        } else {
            Ok(SingleNonceSequence { nonce, used: false })
        }
    }

    /// Yields the stored nonce on the first call and `NonceExhausted` on
    /// every later one.
    pub fn advance(&mut self) -> (r: Result<Vec<u8>, AeadError>)
        ensures
            final(self).nonce_value() == old(self).nonce_value(),
            final(self).spent(),
            old(self).spent() ==> *final(self) == *old(self)
                && r is Err && r->Err_0 == AeadError::NonceExhausted,
            !old(self).spent() ==> r is Ok && r->Ok_0@ == old(self).nonce_value(),
            r is Ok ==> r->Ok_0@.len() == NONCE_LEN,
    {
        proof {
            use_type_invariant(&*self);
        }
        if self.used {
            Err(AeadError::NonceExhausted)
        } else {
            self.used = true;
            Ok(clone_bytes(&self.nonce))
        }
    }
}

} // verus!
