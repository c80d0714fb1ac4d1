use aead_core::engine::{new_opening_handle, new_sealing_handle, open, round_trip, seal};
use aead_core::error::AeadError;
use aead_core::nonce::SingleNonceSequence;
use aead_core::provision::{generate_key, generate_nonce};

fn zero_key() -> Vec<u8> {
    vec![0u8; 32]
}

fn zero_nonce() -> Vec<u8> {
    vec![0u8; 12]
}

fn public_data() -> Vec<u8> {
    b"additional public data".to_vec()
}

fn hello() -> Vec<u8> {
    b"hello world".to_vec()
}

#[test]
fn seal_example_scenario() {
    let (ciphertext, tag) = seal(&zero_key(), &zero_nonce(), &public_data(), &hello()).unwrap();
    assert_eq!(ciphertext.len(), 11);
    assert_eq!(tag.len(), 16);
    let recovered = open(&zero_key(), &zero_nonce(), &public_data(), &ciphertext, &tag).unwrap();
    assert_eq!(recovered, hello());
}

#[test]
fn round_trip_returns_plaintext() {
    let out = round_trip(&zero_key(), &zero_nonce(), &public_data(), &hello()).unwrap();
    assert_eq!(out, hello());
}

#[test]
fn round_trip_with_generated_material() {
    let key = generate_key().unwrap();
    let nonce = generate_nonce().unwrap();
    let out = round_trip(&key, &nonce, &public_data(), &hello()).unwrap();
    assert_eq!(out, hello());
}

#[test]
fn generated_material_has_required_lengths() {
    assert_eq!(generate_key().unwrap().len(), 32);
    assert_eq!(generate_nonce().unwrap().len(), 12);
}

#[test]
fn empty_plaintext_round_trip() {
    let empty: Vec<u8> = Vec::new();
    let (ciphertext, tag) = seal(&zero_key(), &zero_nonce(), &public_data(), &empty).unwrap();
    assert_eq!(ciphertext.len(), 0);
    assert_eq!(tag.len(), 16);
    let recovered = open(&zero_key(), &zero_nonce(), &public_data(), &ciphertext, &tag).unwrap();
    assert_eq!(recovered, empty);
}

#[test]
fn empty_associated_data_round_trip() {
    let empty: Vec<u8> = Vec::new();
    let out = round_trip(&zero_key(), &zero_nonce(), &empty, &hello()).unwrap();
    assert_eq!(out, hello());
}

#[test]
fn ciphertext_differs_from_plaintext() {
    let (ciphertext, _) = seal(&zero_key(), &zero_nonce(), &public_data(), &hello()).unwrap();
    assert_ne!(ciphertext, hello());
}

#[test]
fn seal_is_deterministic() {
    let first = seal(&zero_key(), &zero_nonce(), &public_data(), &hello()).unwrap();
    let second = seal(&zero_key(), &zero_nonce(), &public_data(), &hello()).unwrap();
    assert_eq!(first, second);
}

#[test]
fn tampered_ciphertext_fails_for_every_bit() {
    let (ciphertext, tag) = seal(&zero_key(), &zero_nonce(), &public_data(), &hello()).unwrap();
    for byte in 0..ciphertext.len() {
        for bit in 0..8 {
            let mut tampered = ciphertext.clone();
            tampered[byte] ^= 1u8 << bit;
            let r = open(&zero_key(), &zero_nonce(), &public_data(), &tampered, &tag);
            assert_eq!(r.unwrap_err(), AeadError::AuthenticationFailed);
        }
    }
}

#[test]
fn tampered_tag_fails_for_every_bit() {
    let (ciphertext, tag) = seal(&zero_key(), &zero_nonce(), &public_data(), &hello()).unwrap();
    for byte in 0..tag.len() {
        for bit in 0..8 {
            let mut tampered = tag.clone();
            tampered[byte] ^= 1u8 << bit;
            let r = open(&zero_key(), &zero_nonce(), &public_data(), &ciphertext, &tampered);
            assert_eq!(r.unwrap_err(), AeadError::AuthenticationFailed);
        }
    }
}

#[test]
fn different_associated_data_fails() {
    let (ciphertext, tag) = seal(&zero_key(), &zero_nonce(), &public_data(), &hello()).unwrap();
    let other = b"different public data".to_vec();
    let r = open(&zero_key(), &zero_nonce(), &other, &ciphertext, &tag);
    assert_eq!(r.unwrap_err(), AeadError::AuthenticationFailed);
    let empty: Vec<u8> = Vec::new();
    let r = open(&zero_key(), &zero_nonce(), &empty, &ciphertext, &tag);
    assert_eq!(r.unwrap_err(), AeadError::AuthenticationFailed);
}

#[test]
fn wrong_key_fails() {
    let (ciphertext, tag) = seal(&zero_key(), &zero_nonce(), &public_data(), &hello()).unwrap();
    let mut other_key = zero_key();
    other_key[0] = 1;
    let r = open(&other_key, &zero_nonce(), &public_data(), &ciphertext, &tag);
    assert_eq!(r.unwrap_err(), AeadError::AuthenticationFailed);
}

#[test]
fn wrong_nonce_fails() {
    let (ciphertext, tag) = seal(&zero_key(), &zero_nonce(), &public_data(), &hello()).unwrap();
    let mut other_nonce = zero_nonce();
    other_nonce[11] = 7;
    let r = open(&zero_key(), &other_nonce, &public_data(), &ciphertext, &tag);
    assert_eq!(r.unwrap_err(), AeadError::AuthenticationFailed);
}

#[test]
fn wrong_tag_length_fails() {
    let (ciphertext, tag) = seal(&zero_key(), &zero_nonce(), &public_data(), &hello()).unwrap();
    let short = tag[..15].to_vec();
    let r = open(&zero_key(), &zero_nonce(), &public_data(), &ciphertext, &short);
    assert_eq!(r.unwrap_err(), AeadError::AuthenticationFailed);
    let mut long = tag.clone();
    long.push(0);
    let r = open(&zero_key(), &zero_nonce(), &public_data(), &ciphertext, &long);
    assert_eq!(r.unwrap_err(), AeadError::AuthenticationFailed);
}

#[test]
fn key_length_rejection() {
    for len in [0usize, 16, 31, 33, 64] {
        let key = vec![0u8; len];
        let sequence = SingleNonceSequence::new(zero_nonce()).unwrap();
        let r = new_sealing_handle(key.clone(), sequence);
        assert_eq!(r.err().unwrap(), AeadError::InvalidKeyLength);
        let sequence = SingleNonceSequence::new(zero_nonce()).unwrap();
        let r = new_opening_handle(key.clone(), sequence);
        assert_eq!(r.err().unwrap(), AeadError::InvalidKeyLength);
        let r = seal(&key, &zero_nonce(), &public_data(), &hello());
        assert_eq!(r.unwrap_err(), AeadError::InvalidKeyLength);
        let r = open(&key, &zero_nonce(), &public_data(), &hello(), &vec![0u8; 16]);
        assert_eq!(r.unwrap_err(), AeadError::InvalidKeyLength);
    }
}

#[test]
fn nonce_length_rejection() {
    for len in [0usize, 11, 13, 24] {
        let nonce = vec![0u8; len];
        let r = SingleNonceSequence::new(nonce.clone());
        assert_eq!(r.err().unwrap(), AeadError::InvalidNonceLength);
        let r = seal(&zero_key(), &nonce, &public_data(), &hello());
        assert_eq!(r.unwrap_err(), AeadError::InvalidNonceLength);
        let r = open(&zero_key(), &nonce, &public_data(), &hello(), &vec![0u8; 16]);
        assert_eq!(r.unwrap_err(), AeadError::InvalidNonceLength);
    }
}

#[test]
fn nonce_sequence_is_single_use() {
    let mut sequence = SingleNonceSequence::new(zero_nonce()).unwrap();
    assert_eq!(sequence.advance().unwrap(), zero_nonce());
    assert_eq!(sequence.advance().unwrap_err(), AeadError::NonceExhausted);
    assert_eq!(sequence.advance().unwrap_err(), AeadError::NonceExhausted);
}

#[test]
fn sealing_handle_is_single_use() {
    let sequence = SingleNonceSequence::new(zero_nonce()).unwrap();
    let mut handle = new_sealing_handle(zero_key(), sequence).unwrap();
    let mut buffer = hello();
    handle.seal_in_place(&public_data(), &mut buffer).unwrap();
    let mut again = hello();
    let r = handle.seal_in_place(&public_data(), &mut again);
    assert_eq!(r.unwrap_err(), AeadError::NonceExhausted);
    assert_eq!(again, hello());
}

#[test]
fn opening_handle_is_single_use() {
    let (ciphertext, tag) = seal(&zero_key(), &zero_nonce(), &public_data(), &hello()).unwrap();
    let mut buffer = ciphertext.clone();
    buffer.extend_from_slice(&tag);
    let sequence = SingleNonceSequence::new(zero_nonce()).unwrap();
    let mut handle = new_opening_handle(zero_key(), sequence).unwrap();
    handle.open_in_place(&public_data(), &mut buffer.clone()).unwrap();
    let r = handle.open_in_place(&public_data(), &mut buffer);
    assert_eq!(r.unwrap_err(), AeadError::NonceExhausted);
}

#[test]
fn handles_match_the_one_shot_interface() {
    let sequence = SingleNonceSequence::new(zero_nonce()).unwrap();
    let mut handle = new_sealing_handle(zero_key(), sequence).unwrap();
    let mut buffer = hello();
    let tag = handle.seal_in_place(&public_data(), &mut buffer).unwrap();
    let (ciphertext, one_shot_tag) =
        seal(&zero_key(), &zero_nonce(), &public_data(), &hello()).unwrap();
    assert_eq!(buffer, ciphertext);
    assert_eq!(tag, one_shot_tag);
}

#[test]
fn failed_open_releases_no_plaintext() {
    let (ciphertext, tag) = seal(&zero_key(), &zero_nonce(), &public_data(), &hello()).unwrap();
    let mut buffer = ciphertext.clone();
    buffer.extend_from_slice(&tag);
    buffer[0] ^= 0x01;
    let tampered = buffer.clone();
    let sequence = SingleNonceSequence::new(zero_nonce()).unwrap();
    let mut handle = new_opening_handle(zero_key(), sequence).unwrap();
    let r = handle.open_in_place(&public_data(), &mut buffer);
    assert_eq!(r.unwrap_err(), AeadError::AuthenticationFailed);
    assert_eq!(buffer, tampered);
}
