use aes_gcm::aead::generic_array::GenericArray;
use aes_gcm::aead::{Aead, KeyInit};
use aes_gcm::{Aes256Gcm, Nonce};
use geekpad::crypto::{decrypt_note, derive_key, encrypt_note, seal_note, CryptoError};

#[test]
fn round_trip_restores_text() {
    let blob = encrypt_note("hello\nworld é", "pw").unwrap();
    assert_eq!(decrypt_note(&blob, "pw").unwrap(), "hello\nworld é");
}

#[test]
fn round_trip_empty_text() {
    let blob = encrypt_note("", "secret").unwrap();
    assert_eq!(blob.len(), 12 + 16);
    assert_eq!(decrypt_note(&blob, "secret").unwrap(), "");
}

#[test]
fn wrong_password_is_integrity_error() {
    let blob = encrypt_note("top secret", "right").unwrap();
    assert_eq!(decrypt_note(&blob, "wrong"), Err(CryptoError::Integrity));
}

#[test]
fn flipped_bits_are_detected() {
    let blob = encrypt_note("abc", "pw").unwrap();
    assert_eq!(blob.len(), 12 + 3 + 16);
    for (pos, bit) in [(12usize, 0u8), (14, 7), (20, 3), (30, 7)] {
        let mut bad = blob.clone();
        bad[pos] ^= 1 << bit;
        assert_eq!(decrypt_note(&bad, "pw"), Err(CryptoError::Integrity));
    }
}

#[test]
fn two_sealings_differ_and_both_open() {
    let a = encrypt_note("same", "pw").unwrap();
    let b = encrypt_note("same", "pw").unwrap();
    assert_ne!(a, b);
    assert_ne!(a[..12], b[..12]);
    assert_eq!(decrypt_note(&a, "pw").unwrap(), "same");
    assert_eq!(decrypt_note(&b, "pw").unwrap(), "same");
}

#[test]
fn short_blobs_are_format_errors() {
    assert_eq!(decrypt_note(&[], "pw"), Err(CryptoError::Format));
    assert_eq!(decrypt_note(&[0u8; 5], "pw"), Err(CryptoError::Format));
    assert_eq!(decrypt_note(&[0u8; 11], "pw"), Err(CryptoError::Format));
}

#[test]
fn nonce_only_blob_is_integrity_error() {
    assert_eq!(decrypt_note(&[0u8; 12], "pw"), Err(CryptoError::Integrity));
}

#[test]
fn non_utf8_plaintext_is_format_error() {
    let key = derive_key("pw");
    let cipher = Aes256Gcm::new(GenericArray::from_slice(&key));
    let nonce = [7u8; 12];
    let ct = cipher.encrypt(Nonce::from_slice(&nonce), &[0xffu8, 0xfe][..]).unwrap();
    let mut blob = nonce.to_vec();
    blob.extend_from_slice(&ct);
    assert_eq!(decrypt_note(&blob, "pw"), Err(CryptoError::Format));
}

#[test]
fn key_derivation_is_deterministic() {
    let a = derive_key("password");
    let b = derive_key("password");
    let c = derive_key("passwore");
    assert_eq!(a, b);
    assert_ne!(a, c);
    assert_ne!(&a[..8], b"password");
}

#[test]
fn sealing_with_a_given_nonce() {
    let nonce = [1u8; 12];
    let a = seal_note("plain text", "pw", &nonce);
    let b = seal_note("plain text", "pw", &nonce);
    assert_eq!(a, b);
    assert_eq!(a.len(), 12 + 10 + 16);
    assert_eq!(&a[..12], &nonce);
    assert_ne!(&a[12..22], b"plain text");
    assert_eq!(decrypt_note(&a, "pw").unwrap(), "plain text");
}
