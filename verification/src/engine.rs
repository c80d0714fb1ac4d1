use vstd::prelude::*;

use crate::bytes::{append_bytes, clone_bytes};
use crate::crypto::{
    aes_256_gcm_seal, aes_gcm_open, aes_gcm_seal, GCM_MAX_AAD_LEN, GCM_MAX_INPUT_LEN, KEY_LEN,
    NONCE_LEN, TAG_LEN,
};
use crate::error::AeadError;
use crate::nonce::SingleNonceSequence;

verus! {

/// A key bound to a single-use nonce sequence for one seal operation.
/// Constructing a handle consumes the raw key bytes and the sequence, so the
/// same in-memory key object cannot accidentally serve a second handle.
pub struct SealingHandle {
    key: Vec<u8>,
    nonces: SingleNonceSequence,
}

/// A key bound to a single-use nonce sequence for one open operation. It must
/// be given key bytes and a nonce sequence that reproduce the values used at
/// seal time.
pub struct OpeningHandle {
    key: Vec<u8>,
    nonces: SingleNonceSequence,
}

impl SealingHandle {
    /// The key bytes the handle was built from.
    pub closed spec fn key_bytes(&self) -> Seq<u8> {
        self.key@
    }

    /// The handle carries key material of the cipher's required length;
    /// every handle the constructor hands out satisfies this.
    pub open spec fn wf(&self) -> bool {
        self.key_bytes().len() == KEY_LEN
    }

    /// The nonce that the handle's sequence yields.
    pub closed spec fn nonce_value(&self) -> Seq<u8> {
        self.nonces.nonce_value()
    }

    /// Whether the handle's one operation has already been performed.
    pub closed spec fn spent(&self) -> bool {
        self.nonces.spent()
    }

    /// Advances the nonce sequence once, encrypts `buffer` in place (same
    /// length in and out) and returns the 16-byte authentication tag
    /// computed over ciphertext, associated data and nonce. A second call
    /// fails with `NonceExhausted` and leaves the buffer untouched.
    pub fn seal_in_place(&mut self, aad: &Vec<u8>, buffer: &mut Vec<u8>) -> (r: Result<
        Vec<u8>,
        AeadError,
    >)
        requires
            old(self).wf(),
        ensures
            final(self).key_bytes() == old(self).key_bytes(),
            final(self).nonce_value() == old(self).nonce_value(),
            final(self).spent(),
            old(self).spent() ==> r is Err && r->Err_0 == AeadError::NonceExhausted
                && final(buffer)@ == old(buffer)@,
            !old(self).spent() && r is Ok ==> final(buffer)@ + r->Ok_0@ == aes_256_gcm_seal(
                old(self).key_bytes(),
                old(self).nonce_value(),
                aad@,
                old(buffer)@,
            ) && final(buffer)@.len() == old(buffer)@.len() && r->Ok_0@.len() == TAG_LEN,
            !old(self).spent() && r is Ok ==> old(buffer)@.len() <= GCM_MAX_INPUT_LEN
                && aad@.len() <= GCM_MAX_AAD_LEN,
            !old(self).spent() && r is Err ==> r->Err_0 == AeadError::CipherFault
                && final(buffer)@ == old(buffer)@,
            !old(self).spent() && old(buffer)@.len() <= GCM_MAX_INPUT_LEN && aad@.len()
                <= GCM_MAX_AAD_LEN ==> r is Ok,
    {
        let nonce = match self.nonces.advance() {
            Ok(n) => n,
            Err(e) => {
                return Err(e);
            },
        };
        let mut combined = match aes_gcm_seal(&self.key, &nonce, aad, buffer) {
            Ok(c) => c,
            Err(e) => {
                return Err(e);
            },
        };
        let cipher_len = combined.len() - TAG_LEN;
        let tag = combined.split_off(cipher_len);
        proof {
            assert(combined@ + tag@ =~= aes_256_gcm_seal(
                old(self).key_bytes(),
                old(self).nonce_value(),
                aad@,
                old(buffer)@,
            ));
        }
        *buffer = combined;
        Ok(tag)
    }
}

impl OpeningHandle {
    /// The key bytes the handle was built from.
    pub closed spec fn key_bytes(&self) -> Seq<u8> {
        self.key@
    }

    /// The handle carries key material of the cipher's required length;
    /// every handle the constructor hands out satisfies this.
    pub open spec fn wf(&self) -> bool {
        self.key_bytes().len() == KEY_LEN
    }

    /// The nonce that the handle's sequence yields.
    pub closed spec fn nonce_value(&self) -> Seq<u8> {
        self.nonces.nonce_value()
    }

    /// Whether the handle's one operation has already been performed.
    pub closed spec fn spent(&self) -> bool {
        self.nonces.spent()
    }

    /// Advances the nonce sequence once and verifies `buffer`, which must
    /// hold the ciphertext immediately followed by the 16-byte tag. On a tag
    /// match the buffer is replaced by the recovered plaintext (tag
    /// stripped). On any failure the buffer is left exactly as it was: no
    /// decrypted byte is ever released without authentication.
    pub fn open_in_place(&mut self, aad: &Vec<u8>, buffer: &mut Vec<u8>) -> (r: Result<
        (),
        AeadError,
    >)
        requires
            old(self).wf(),
        ensures
            final(self).key_bytes() == old(self).key_bytes(),
            final(self).nonce_value() == old(self).nonce_value(),
            final(self).spent(),
            old(self).spent() ==> r is Err && r->Err_0 == AeadError::NonceExhausted,
            !old(self).spent() && r is Ok ==> old(buffer)@ == aes_256_gcm_seal(
                old(self).key_bytes(),
                old(self).nonce_value(),
                aad@,
                final(buffer)@,
            ) && final(buffer)@.len() + TAG_LEN == old(buffer)@.len(),
            !old(self).spent() && r is Err ==> r->Err_0 == AeadError::AuthenticationFailed,
            r is Err ==> final(buffer)@ == old(buffer)@,
            forall|pt: Seq<u8>|
                !old(self).spent() && pt.len() <= GCM_MAX_INPUT_LEN && aad@.len()
                    <= GCM_MAX_AAD_LEN && old(buffer)@ == aes_256_gcm_seal(
                    old(self).key_bytes(),
                    old(self).nonce_value(),
                    aad@,
                    pt,
                ) ==> r is Ok && final(buffer)@ == pt,
    {
        let nonce = match self.nonces.advance() {
            Ok(n) => n,
            Err(e) => {
                return Err(e);
            },
        };
        match aes_gcm_open(&self.key, &nonce, aad, buffer) {
            Ok(pt) => {
                *buffer = pt;
                Ok(())
            },
            Err(e) => Err(e),
        }
    }
}

/// Binds key bytes and a nonce sequence into a sealing handle, consuming
/// both. Fails with `InvalidKeyLength` exactly when the key is not the
/// cipher's required 32 bytes.
pub fn new_sealing_handle(key: Vec<u8>, nonce_sequence: SingleNonceSequence) -> (r: Result<
    SealingHandle,
    AeadError,
>)
    ensures
        key@.len() == KEY_LEN ==> r is Ok && r->Ok_0.key_bytes() == key@
            && r->Ok_0.nonce_value() == nonce_sequence.nonce_value() && r->Ok_0.spent()
            == nonce_sequence.spent(),
        key@.len() != KEY_LEN ==> r is Err && r->Err_0 == AeadError::InvalidKeyLength,
{
    if key.len() != KEY_LEN {
        Err(AeadError::InvalidKeyLength)
    } else {
        Ok(SealingHandle { key, nonces: nonce_sequence })
    }
}

/// Binds key bytes and a nonce sequence into an opening handle, consuming
/// both. Fails with `InvalidKeyLength` exactly when the key is not the
/// cipher's required 32 bytes.
pub fn new_opening_handle(key: Vec<u8>, nonce_sequence: SingleNonceSequence) -> (r: Result<
    OpeningHandle,
    AeadError,
>)
    ensures
        key@.len() == KEY_LEN ==> r is Ok && r->Ok_0.key_bytes() == key@
            && r->Ok_0.nonce_value() == nonce_sequence.nonce_value() && r->Ok_0.spent()
            == nonce_sequence.spent(),
        key@.len() != KEY_LEN ==> r is Err && r->Err_0 == AeadError::InvalidKeyLength,
{
    if key.len() != KEY_LEN {
        Err(AeadError::InvalidKeyLength)
    } else {
        Ok(OpeningHandle { key, nonces: nonce_sequence })
    }
}

/// Seals one plaintext: encrypts it under the key and nonce and binds the
/// associated data into the returned 16-byte tag. The ciphertext is exactly
/// as long as the plaintext.
pub fn seal(key: &Vec<u8>, nonce: &Vec<u8>, aad: &Vec<u8>, plaintext: &Vec<u8>) -> (r: Result<
    (Vec<u8>, Vec<u8>),
    AeadError,
>)
    ensures
        nonce@.len() != NONCE_LEN ==> r is Err && r->Err_0 == AeadError::InvalidNonceLength,
        nonce@.len() == NONCE_LEN && key@.len() != KEY_LEN ==> r is Err && r->Err_0
            == AeadError::InvalidKeyLength,
        r is Ok ==> key@.len() == KEY_LEN && nonce@.len() == NONCE_LEN && r->Ok_0.0@ + r->Ok_0.1@
            == aes_256_gcm_seal(key@, nonce@, aad@, plaintext@) && r->Ok_0.0@.len()
            == plaintext@.len() && r->Ok_0.1@.len() == TAG_LEN,
        r is Ok ==> plaintext@.len() <= GCM_MAX_INPUT_LEN && aad@.len() <= GCM_MAX_AAD_LEN,
        key@.len() == KEY_LEN && nonce@.len() == NONCE_LEN && plaintext@.len()
            <= GCM_MAX_INPUT_LEN && aad@.len() <= GCM_MAX_AAD_LEN ==> r is Ok,
        r is Err ==> r->Err_0 == AeadError::InvalidNonceLength || r->Err_0
            == AeadError::InvalidKeyLength || r->Err_0 == AeadError::CipherFault,
{
    let sequence = match SingleNonceSequence::new(clone_bytes(nonce)) {
        Ok(s) => s,
        Err(e) => {
            return Err(e);
        },
    };
    let mut handle = match new_sealing_handle(clone_bytes(key), sequence) {
        Ok(h) => h,
        Err(e) => {
            return Err(e);
        },
    };
    let mut buffer = clone_bytes(plaintext);
    match handle.seal_in_place(aad, &mut buffer) {
        Ok(tag) => Ok((buffer, tag)),
        Err(e) => Err(e),
    }
}

/// Opens one sealed message: recomputes the tag over the ciphertext, the
/// associated data and the nonce, and returns the plaintext only when it
/// matches the supplied tag. Every tampered ciphertext, tag or associated
/// data that the cipher detects ends in `AuthenticationFailed`, and nothing
/// decrypted is returned on failure.
pub fn open(
    key: &Vec<u8>,
    nonce: &Vec<u8>,
    aad: &Vec<u8>,
    ciphertext: &Vec<u8>,
    tag: &Vec<u8>,
) -> (r: Result<Vec<u8>, AeadError>)
    ensures
        nonce@.len() != NONCE_LEN ==> r is Err && r->Err_0 == AeadError::InvalidNonceLength,
        nonce@.len() == NONCE_LEN && key@.len() != KEY_LEN ==> r is Err && r->Err_0
            == AeadError::InvalidKeyLength,
        r is Ok ==> key@.len() == KEY_LEN && nonce@.len() == NONCE_LEN && tag@.len() == TAG_LEN
            && ciphertext@ + tag@ == aes_256_gcm_seal(key@, nonce@, aad@, r->Ok_0@)
            && r->Ok_0@.len() == ciphertext@.len(),
        nonce@.len() == NONCE_LEN && key@.len() == KEY_LEN && r is Err ==> r->Err_0
            == AeadError::AuthenticationFailed,
        forall|pt: Seq<u8>|
            key@.len() == KEY_LEN && nonce@.len() == NONCE_LEN && tag@.len() == TAG_LEN
                && pt.len() <= GCM_MAX_INPUT_LEN && aad@.len() <= GCM_MAX_AAD_LEN
                && ciphertext@ + tag@ == aes_256_gcm_seal(key@, nonce@, aad@, pt) ==> r is Ok
                && r->Ok_0@ == pt,
{
    let sequence = match SingleNonceSequence::new(clone_bytes(nonce)) {
        Ok(s) => s,
        Err(e) => {
            return Err(e);
        },
    };
    let mut handle = match new_opening_handle(clone_bytes(key), sequence) {
        Ok(h) => h,
        Err(e) => {
            return Err(e);
        },
    };
    if tag.len() != TAG_LEN {
        return Err(AeadError::AuthenticationFailed);
    }
    let mut buffer = clone_bytes(ciphertext);
    append_bytes(&mut buffer, tag);
    match handle.open_in_place(aad, &mut buffer) {
        Ok(_) => Ok(buffer),
        Err(e) => Err(e),
    }
}

/// Seals a plaintext and immediately opens the result with the same key,
/// nonce and associated data. Whenever it returns a value at all, that value
/// is the original plaintext, and on well-formed, bounded inputs it always
/// does: one full round trip can never lose or alter data.
pub fn round_trip(key: &Vec<u8>, nonce: &Vec<u8>, aad: &Vec<u8>, plaintext: &Vec<u8>) -> (r:
    Result<Vec<u8>, AeadError>)
    ensures
        r is Ok ==> r->Ok_0@ == plaintext@,
        key@.len() == KEY_LEN && nonce@.len() == NONCE_LEN && plaintext@.len()
            <= GCM_MAX_INPUT_LEN && aad@.len() <= GCM_MAX_AAD_LEN ==> r is Ok,
{
    let (ciphertext, tag) = match seal(key, nonce, aad, plaintext) {
        Ok(p) => p,
        Err(e) => {
            return Err(e);
        },
    };
    match open(key, nonce, aad, &ciphertext, &tag) {
        Ok(pt) => Ok(pt),
        Err(e) => Err(e),
    }
}

/// Sealing is deterministic: the ciphertext-and-tag output is a function of
/// key, nonce, associated data and plaintext alone, so sealing the same four
/// values twice yields the same bytes both times.
pub proof fn lemma_seal_deterministic(
    key: Seq<u8>,
    nonce: Seq<u8>,
    aad: Seq<u8>,
    plaintext: Seq<u8>,
    out1: Seq<u8>,
    out2: Seq<u8>,
)
    requires
        out1 == aes_256_gcm_seal(key, nonce, aad, plaintext),
        out2 == aes_256_gcm_seal(key, nonce, aad, plaintext),
    ensures
        out1 == out2,
{
}

} // verus!
