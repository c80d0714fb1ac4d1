use vstd::prelude::*;

use crate::crypto::{random_bytes, KEY_LEN, NONCE_LEN};
use crate::error::AeadError;

verus! {

/// Draws a fresh 256-bit key from the system entropy source.
pub fn generate_key() -> (r: Result<Vec<u8>, AeadError>)
    ensures
        r is Ok ==> r->Ok_0@.len() == KEY_LEN,
        r is Err ==> r->Err_0 == AeadError::EntropyFailure,
{
    random_bytes(KEY_LEN)
}

/// Draws a fresh 96-bit nonce from the system entropy source.
pub fn generate_nonce() -> (r: Result<Vec<u8>, AeadError>)
    ensures
        r is Ok ==> r->Ok_0@.len() == NONCE_LEN,
        r is Err ==> r->Err_0 == AeadError::EntropyFailure,
{
    random_bytes(NONCE_LEN)
}

} // verus!
