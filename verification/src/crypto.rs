use vstd::prelude::*;

use crate::error::AeadError;

verus! {

/// Key length in bytes of the cipher suite (256-bit AES-GCM).
pub const KEY_LEN: usize = 32;

/// Nonce length in bytes (96-bit nonces).
pub const NONCE_LEN: usize = 12;

/// Authentication tag length in bytes (128-bit tags).
pub const TAG_LEN: usize = 16;

/// Largest plaintext or ciphertext length, in bytes, that AES-GCM accepts
/// for one operation: ((2^39 - 256) / 8).
pub const GCM_MAX_INPUT_LEN: u64 = 68719476704;

/// Largest associated-data length, in bytes, whose bit count still fits in
/// 64 bits: floor((2^64 - 1) / 8).
pub const GCM_MAX_AAD_LEN: u64 = 2305843009213693951;

/// The ciphertext-and-tag output of sealing under AES-256-GCM: the ciphertext
/// (as long as the plaintext) immediately followed by the 16-byte tag. The
/// output is a function of key, nonce, associated data and plaintext alone.
pub uninterp spec fn aes_256_gcm_seal(
    key: Seq<u8>,
    nonce: Seq<u8>,
    aad: Seq<u8>,
    plaintext: Seq<u8>,
) -> Seq<u8>;

/// Relies on ring::rand::SystemRandom::fill: fills the whole buffer with
/// cryptographically secure random bytes, or reports that the operating
/// system's entropy source is unavailable.
#[verifier::external_body]
pub(crate) fn random_bytes(n: usize) -> (r: Result<Vec<u8>, AeadError>)
    ensures
        r is Ok ==> r->Ok_0@.len() == n,
        r is Err ==> r->Err_0 == AeadError::EntropyFailure,
{
    let mut buf = vec![0u8; n];
    match ring::rand::SecureRandom::fill(&ring::rand::SystemRandom::new(), &mut buf) {
        Ok(()) => Ok(buf),
        Err(_) => Err(AeadError::EntropyFailure),
    }
}

/// Relies on ring::aead::UnboundKey::new, LessSafeKey::new,
/// Nonce::try_assume_unique_for_key and
/// LessSafeKey::seal_in_place_separate_tag with ring::aead::AES_256_GCM:
/// encrypts the plaintext in place (same length) and computes a 16-byte tag
/// over ciphertext, associated data and nonce. The operation succeeds exactly
/// when the plaintext is at most GCM_MAX_INPUT_LEN bytes and the associated
/// data's bit length fits in 64 bits; its output depends on the four
/// arguments alone. The key and nonce constructors fail only on material of
/// the wrong length, which the preconditions rule out.
#[verifier::external_body]
pub(crate) fn aes_gcm_seal(
    key: &Vec<u8>,
    nonce: &Vec<u8>,
    aad: &Vec<u8>,
    plaintext: &Vec<u8>,
) -> (r: Result<Vec<u8>, AeadError>)
    requires
        key@.len() == KEY_LEN,
        nonce@.len() == NONCE_LEN,
    ensures
        r is Ok ==> r->Ok_0@ == aes_256_gcm_seal(key@, nonce@, aad@, plaintext@),
        r is Ok ==> r->Ok_0@.len() == plaintext@.len() + TAG_LEN,
        r is Ok ==> plaintext@.len() <= GCM_MAX_INPUT_LEN && aad@.len() <= GCM_MAX_AAD_LEN,
        plaintext@.len() <= GCM_MAX_INPUT_LEN && aad@.len() <= GCM_MAX_AAD_LEN ==> r is Ok,
        r is Err ==> r->Err_0 == AeadError::CipherFault,
{
    let unbound = ring::aead::UnboundKey::new(&ring::aead::AES_256_GCM, key.as_slice()).unwrap();
    let n = ring::aead::Nonce::try_assume_unique_for_key(nonce.as_slice()).unwrap();
    let mut buf = plaintext.clone();
    let sealing = ring::aead::LessSafeKey::new(unbound);
    match sealing.seal_in_place_separate_tag(n, ring::aead::Aad::from(aad.as_slice()), &mut buf) {
        Ok(tag) => {
            buf.extend_from_slice(tag.as_ref());
            Ok(buf)
        }
        Err(_) => Err(AeadError::CipherFault),
    }
}

/// Relies on ring::aead::UnboundKey::new, LessSafeKey::new,
/// Nonce::try_assume_unique_for_key and LessSafeKey::open_in_place with
/// ring::aead::AES_256_GCM: recomputes the tag over the ciphertext portion,
/// the associated data and the nonce, compares it in constant time against
/// the trailing 16 bytes, and decrypts exactly when they match. It returns
/// the plaintext precisely for inputs that sealing under the same key, nonce
/// and associated data produces, and fails on every other input. The key and
/// nonce constructors fail only on material of the wrong length, which the
/// preconditions rule out.
#[verifier::external_body]
pub(crate) fn aes_gcm_open(
    key: &Vec<u8>,
    nonce: &Vec<u8>,
    aad: &Vec<u8>,
    sealed: &Vec<u8>,
) -> (r: Result<Vec<u8>, AeadError>)
    requires
        key@.len() == KEY_LEN,
        nonce@.len() == NONCE_LEN,
    ensures
        r is Ok ==> sealed@ == aes_256_gcm_seal(key@, nonce@, aad@, r->Ok_0@)
            && r->Ok_0@.len() + TAG_LEN == sealed@.len(),
        forall|pt: Seq<u8>|
            pt.len() <= GCM_MAX_INPUT_LEN && aad@.len() <= GCM_MAX_AAD_LEN
                && sealed@ == aes_256_gcm_seal(key@, nonce@, aad@, pt)
                ==> r is Ok && r->Ok_0@ == pt,
        r is Err ==> r->Err_0 == AeadError::AuthenticationFailed,
{
    let unbound = ring::aead::UnboundKey::new(&ring::aead::AES_256_GCM, key.as_slice()).unwrap();
    let n = ring::aead::Nonce::try_assume_unique_for_key(nonce.as_slice()).unwrap();
    let mut buf = sealed.clone();
    let opening = ring::aead::LessSafeKey::new(unbound);
    match opening.open_in_place(n, ring::aead::Aad::from(aad.as_slice()), &mut buf) {
        Ok(pt) => Ok(pt.to_vec()),
        Err(_) => Err(AeadError::AuthenticationFailed),
    }
}

} // verus!
