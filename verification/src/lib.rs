//! A minimal authenticated-encryption (AEAD) library built on AES-256-GCM.
//!
//! The library provisions key and nonce material from the system entropy
//! source, binds a key to a single-use nonce sequence in a sealing or opening
//! handle, and performs one seal (encrypt and authenticate) or one open
//! (verify and decrypt) operation per handle. Tampering with the ciphertext,
//! the tag or the associated data makes `open` fail with
//! `AuthenticationFailed`, and nothing decrypted is ever returned on failure.
//!
//! Two small container exercises, an axis-aligned rectangle and an
//! arena-backed doubly-linked list, live beside the cipher code.

pub mod bytes;
pub mod crypto;
pub mod engine;
pub mod error;
pub mod list;
pub mod nonce;
pub mod provision;
pub mod rect;
