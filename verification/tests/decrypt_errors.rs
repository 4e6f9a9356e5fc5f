// The error taxonomy: each failure comes exactly on the inputs the pipeline
// contract names, in validation order.

use base64::Engine;
use imgdec::cbc_mode::cbc_decrypt;
use imgdec::errors::DecryptError;
use imgdec::errors::InputField;
use imgdec::pipeline::decrypt;
use imgdec::pipeline::encrypt;

fn b64(bytes: &[u8]) -> String {
    base64::engine::general_purpose::STANDARD.encode(bytes)
}

fn key32() -> Vec<u8> {
    (0u8..32).collect()
}

fn iv16() -> Vec<u8> {
    (0u8..16).collect()
}

#[test]
fn empty_key_string() {
    let ct = vec![0u8; 16];
    let r = decrypt(&ct, "", &b64(&iv16()));
    assert_eq!(r, Err(DecryptError::EmptyInput { field: InputField::Key }));
}

#[test]
fn empty_iv_string() {
    let ct = vec![0u8; 16];
    let r = decrypt(&ct, &b64(&key32()), "");
    assert_eq!(r, Err(DecryptError::EmptyInput { field: InputField::Iv }));
}

#[test]
fn empty_ciphertext() {
    let ct: Vec<u8> = Vec::new();
    let r = decrypt(&ct, &b64(&key32()), &b64(&iv16()));
    assert_eq!(r, Err(DecryptError::EmptyInput { field: InputField::Ciphertext }));
}

#[test]
fn unaligned_ciphertext_lengths() {
    for len in [1usize, 15, 17, 31] {
        let ct = vec![0u8; len];
        let r = decrypt(&ct, &b64(&key32()), &b64(&iv16()));
        assert_eq!(r, Err(DecryptError::UnalignedCiphertext { length: len }));
    }
}

#[test]
fn malformed_base64_key() {
    let ct = vec![0u8; 16];
    let r = decrypt(&ct, "!!!not-base64!!!", &b64(&iv16()));
    assert_eq!(r, Err(DecryptError::Base64DecodeFailure { field: InputField::Key }));
}

#[test]
fn malformed_base64_iv() {
    let ct = vec![0u8; 16];
    let r = decrypt(&ct, &b64(&key32()), "%%%%");
    assert_eq!(r, Err(DecryptError::Base64DecodeFailure { field: InputField::Iv }));
}

#[test]
fn base64_with_missing_padding_is_rejected() {
    // Standard base64 requires padding; a 43-character key string is invalid.
    let ct = vec![0u8; 16];
    let mut unpadded = b64(&key32());
    assert_eq!(unpadded.len(), 44);
    unpadded.truncate(43);
    let r = decrypt(&ct, &unpadded, &b64(&iv16()));
    assert_eq!(r, Err(DecryptError::Base64DecodeFailure { field: InputField::Key }));
}

#[test]
fn key_of_31_bytes() {
    let ct = vec![0u8; 16];
    let short: Vec<u8> = (0u8..31).collect();
    let r = decrypt(&ct, &b64(&short), &b64(&iv16()));
    assert_eq!(r, Err(DecryptError::KeyLengthMismatch { expected: 32, actual: 31 }));
}

#[test]
fn key_of_33_bytes() {
    let ct = vec![0u8; 16];
    let long: Vec<u8> = (0u8..33).collect();
    let r = decrypt(&ct, &b64(&long), &b64(&iv16()));
    assert_eq!(r, Err(DecryptError::KeyLengthMismatch { expected: 32, actual: 33 }));
}

#[test]
fn iv_of_wrong_lengths() {
    let ct = vec![0u8; 16];
    for len in [15usize, 17] {
        let iv: Vec<u8> = (0..len).map(|i| i as u8).collect();
        let r = decrypt(&ct, &b64(&key32()), &b64(&iv));
        assert_eq!(r, Err(DecryptError::IvLengthMismatch { expected: 16, actual: len }));
    }
}

#[test]
fn key_length_checked_before_iv_length() {
    let ct = vec![0u8; 16];
    let short_key: Vec<u8> = (0u8..31).collect();
    let short_iv: Vec<u8> = (0u8..15).collect();
    let r = decrypt(&ct, &b64(&short_key), &b64(&short_iv));
    assert_eq!(r, Err(DecryptError::KeyLengthMismatch { expected: 32, actual: 31 }));
}

#[test]
fn engine_revalidates_lengths_itself() {
    // The block-cipher engine, called directly, reports its own init failure.
    let ct = vec![0u8; 16];
    let short_key: Vec<u8> = (0u8..31).collect();
    let r = cbc_decrypt(&short_key, &iv16(), &ct);
    assert_eq!(r, Err(DecryptError::CipherInitFailure { key_length: 31, iv_length: 16 }));
}

#[test]
fn encrypt_revalidates_lengths_itself() {
    let pt = vec![1u8, 2, 3];
    let long_iv: Vec<u8> = (0u8..17).collect();
    let r = encrypt(&pt, &key32(), &long_iv);
    assert_eq!(r, Err(DecryptError::CipherInitFailure { key_length: 32, iv_length: 17 }));
}
