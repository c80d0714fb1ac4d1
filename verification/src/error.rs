use vstd::prelude::*;

verus! {

/// Every failure the library can surface, as a distinct, inspectable value.
#[derive(Clone, Copy, Debug, PartialEq, Eq)]
pub enum AeadError {
    /// The system entropy source could not supply random bytes; fatal, never retried.
    EntropyFailure,
    /// Caller-supplied key material is not exactly the cipher's key length.
    InvalidKeyLength,
    /// Caller-supplied nonce material is not exactly the cipher's nonce length.
    InvalidNonceLength,
    /// The authentication tag did not match on open; no plaintext is released.
    AuthenticationFailed,
    /// The single-use nonce sequence was advanced more than once.
    NonceExhausted,
    /// An internal cipher fault; does not occur on well-formed, bounded inputs.
    CipherFault,
}

} // verus!
