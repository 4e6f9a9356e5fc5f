// Known-answer test for the block-cipher engine: the AES-256-CBC example
// vectors of NIST SP 800-38A (F.2.5/F.2.6). These run the engine directly,
// without padding, so they pin down the raw CBC chaining and the underlying
// AES block operations.

use imgdec::cbc_mode::{cbc_decrypt, cbc_encrypt};

fn hex(s: &str) -> Vec<u8> {
    let bytes: Vec<u8> = s.bytes().filter(|b| !b.is_ascii_whitespace()).collect();
    assert_eq!(bytes.len() % 2, 0);
    bytes
        .chunks(2)
        .map(|pair| {
            let hi = std::str::from_utf8(pair).unwrap();
            u8::from_str_radix(hi, 16).unwrap()
        })
        .collect()
}

fn nist_key() -> Vec<u8> {
    hex("603deb1015ca71be2b73aef0857d7781 1f352c073b6108d72d9810a30914dff4")
}

fn nist_iv() -> Vec<u8> {
    hex("000102030405060708090a0b0c0d0e0f")
}

fn nist_plaintext() -> Vec<u8> {
    hex(
        "6bc1bee22e409f96e93d7e117393172a \
         ae2d8a571e03ac9c9eb76fac45af8e51 \
         30c81c46a35ce411e5fbc1191a0a52ef \
         f69f2445df4f9b17ad2b417be66c3710",
    )
}

fn nist_ciphertext() -> Vec<u8> {
    hex(
        "f58c4c04d6e5f1ba779eabfb5f7bfbd6 \
         9cfc4e967edb808d679f777bc6702c7d \
         39f23369a9d9bacfa530e26304231461 \
         b2eb05e2c39be9fcda6c19078c6a9d1b",
    )
}

#[test]
fn sp800_38a_cbc_aes256_encrypt() {
    let r = cbc_encrypt(&nist_key(), &nist_iv(), &nist_plaintext()).unwrap();
    assert_eq!(r, nist_ciphertext());
}

#[test]
fn sp800_38a_cbc_aes256_decrypt() {
    let r = cbc_decrypt(&nist_key(), &nist_iv(), &nist_ciphertext()).unwrap();
    assert_eq!(r, nist_plaintext());
}

#[test]
fn single_block_chains_off_the_iv() {
    // With a one-block input the only chaining partner is the IV itself.
    let key = nist_key();
    let iv = nist_iv();
    let pt: Vec<u8> = nist_plaintext()[..16].to_vec();
    let ct = cbc_encrypt(&key, &iv, &pt).unwrap();
    assert_eq!(ct, nist_ciphertext()[..16].to_vec());
    let back = cbc_decrypt(&key, &iv, &ct).unwrap();
    assert_eq!(back, pt);
}
