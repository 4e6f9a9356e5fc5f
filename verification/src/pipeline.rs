//! The decrypt pipeline: validate the inputs, decode the base64 key and IV,
//! decrypt in CBC mode, strip the PKCS7 padding. Data flows strictly forward;
//! every failure is one of the typed errors and no stage is retried.

use crate::cbc_mode::cbc_decrypt;
use crate::cbc_mode::cbc_decrypt_bytes;
use crate::cbc_mode::cbc_encrypt;
use crate::cbc_mode::cbc_encrypt_bytes;
use crate::errors::DecryptError;
use crate::errors::InputField;
use crate::padding::apply_padding;
use crate::padding::lemma_unpad_pad;
use crate::padding::pkcs7_pad;
use crate::padding::pkcs7_unpad;
use crate::padding::strip_padding;
use vstd::prelude::*;

verus! {

/// What standard base64 (RFC 4648, with padding) decoding of `s` yields:
/// `None` for a malformed string, otherwise the decoded bytes. The result is
/// a function of the string alone.
pub uninterp spec fn b64_decode(s: Seq<char>) -> Option<Seq<u8>>;

/// Relies on base64's general_purpose::STANDARD engine (Engine::decode):
/// standard-alphabet base64 with padding, decoded to bytes, a pure function of
/// the input string; a malformed input is the only failure.
#[verifier::external_body]
fn base64_decode(s: &str) -> (r: Option<Vec<u8>>)
    ensures
        match r {
            Some(v) => b64_decode(s@) == Some(v@),
            None => b64_decode(s@) is None,
        },
{
    base64::Engine::decode(&base64::engine::general_purpose::STANDARD, s).ok()
}

/// Decryption from raw key and IV bytes: CBC-decrypt, validate and strip the
/// PKCS7 padding, and reject an empty payload.
pub open spec fn decrypt_raw_spec(key: Seq<u8>, iv: Seq<u8>, ct: Seq<u8>) -> Result<
    Seq<u8>,
    DecryptError,
> {
    match pkcs7_unpad(cbc_decrypt_bytes(key, iv, ct)) {
        Option::None => Err(DecryptError::PaddingValidationFailure),
        Option::Some(p) => if p.len() == 0 {
            Err(DecryptError::EmptyPlaintextAfterUnpad)
        } else {
            Ok(p)
        },
    }
}

/// The whole pipeline. Validation fails fast, in this order: empty key
/// string, empty IV string, empty ciphertext, unaligned ciphertext; then
/// base64 decoding of the key and of the IV, each length-checked; then CBC
/// decryption and PKCS7 unpadding.
pub open spec fn decrypt_spec(ct: Seq<u8>, key_b64: Seq<char>, iv_b64: Seq<char>) -> Result<
    Seq<u8>,
    DecryptError,
> {
    if key_b64.len() == 0 {
        Err(DecryptError::EmptyInput { field: InputField::Key })
    } else if iv_b64.len() == 0 {
        Err(DecryptError::EmptyInput { field: InputField::Iv })
    } else if ct.len() == 0 {
        Err(DecryptError::EmptyInput { field: InputField::Ciphertext })
    } else if ct.len() % 16 != 0 {
        Err(DecryptError::UnalignedCiphertext { length: ct.len() as usize })
    } else {
        match b64_decode(key_b64) {
            Option::None => Err(DecryptError::Base64DecodeFailure { field: InputField::Key }),
            Option::Some(key) => match b64_decode(iv_b64) {
                Option::None => Err(DecryptError::Base64DecodeFailure { field: InputField::Iv }),
                Option::Some(iv) => if key.len() != 32 {
                    Err(DecryptError::KeyLengthMismatch { expected: 32, actual: key.len() as usize })
                } else if iv.len() != 16 {
                    Err(DecryptError::IvLengthMismatch { expected: 16, actual: iv.len() as usize })
                } else {
                    decrypt_raw_spec(key, iv, ct)
                },
            },
        }
    }
}

/// Decrypts `ciphertext` with the base64-encoded 256-bit key and 128-bit IV,
/// returning the exact plaintext or the first applicable typed error.
pub fn decrypt(ciphertext: &Vec<u8>, key_b64: &str, iv_b64: &str) -> (r: Result<
    Vec<u8>,
    DecryptError,
>)
    ensures
        match r {
            Ok(v) => decrypt_spec(ciphertext@, key_b64@, iv_b64@) == Ok::<Seq<u8>, DecryptError>(
                v@,
            ),
            Err(e) => decrypt_spec(ciphertext@, key_b64@, iv_b64@) == Err::<Seq<u8>, DecryptError>(
                e,
            ),
        },
{
    if key_b64.is_empty() {
        return Err(DecryptError::EmptyInput { field: InputField::Key });
    }
    if iv_b64.is_empty() {
        return Err(DecryptError::EmptyInput { field: InputField::Iv });
    }
    let ct_len = ciphertext.len();
    if ct_len == 0 {
        return Err(DecryptError::EmptyInput { field: InputField::Ciphertext });
    }
    if ct_len % 16 != 0 {
        return Err(DecryptError::UnalignedCiphertext { length: ct_len });
    }
    let key = match base64_decode(key_b64) {
        Option::Some(k) => k,
        Option::None => {
            return Err(DecryptError::Base64DecodeFailure { field: InputField::Key });
        },
    };
    let iv = match base64_decode(iv_b64) {
        Option::Some(v) => v,
        Option::None => {
            return Err(DecryptError::Base64DecodeFailure { field: InputField::Iv });
        },
    };
    if key.len() != 32 {
        return Err(DecryptError::KeyLengthMismatch { expected: 32, actual: key.len() });
    }
    if iv.len() != 16 {
        return Err(DecryptError::IvLengthMismatch { expected: 16, actual: iv.len() });
    }
    let full = match cbc_decrypt(&key, &iv, ciphertext) {
        Ok(v) => v,
        Err(_) => unreached(),
    };
    match strip_padding(&full) {
        Option::None => Err(DecryptError::PaddingValidationFailure),
        Option::Some(p) => {
            if p.len() == 0 {
                Err(DecryptError::EmptyPlaintextAfterUnpad)
            } else {
                Ok(p)
            }
        },
    }
}

/// The "chunked" entry point. CBC decryption needs the previous ciphertext
/// block for every block, so it is not incrementally composable: there is no
/// real chunked processing, and this is a direct alias for `decrypt`.
pub fn decrypt_chunked(ciphertext: &Vec<u8>, key_b64: &str, iv_b64: &str) -> (r: Result<
    Vec<u8>,
    DecryptError,
>)
    ensures
        match r {
            Ok(v) => decrypt_spec(ciphertext@, key_b64@, iv_b64@) == Ok::<Seq<u8>, DecryptError>(
                v@,
            ),
            Err(e) => decrypt_spec(ciphertext@, key_b64@, iv_b64@) == Err::<Seq<u8>, DecryptError>(
                e,
            ),
        },
{
    decrypt(ciphertext, key_b64, iv_b64)
}

/// PKCS7-pads `plaintext` and encrypts it with AES-256-CBC from raw key and
/// IV bytes. The contract carries the round-trip identity: decrypting the
/// returned ciphertext under the same key and IV gives back `plaintext`
/// exactly (or, for an empty plaintext, the empty-payload error).
pub fn encrypt(plaintext: &Vec<u8>, key: &Vec<u8>, iv: &Vec<u8>) -> (r: Result<
    Vec<u8>,
    DecryptError,
>)
    requires
        plaintext@.len() + 16 <= usize::MAX,
    ensures
        match r {
            Ok(ct) => key@.len() == 32 && iv@.len() == 16 && ct@ == cbc_encrypt_bytes(
                key@,
                iv@,
                pkcs7_pad(plaintext@),
            ) && ct@.len() % 16 == 0 && ct@.len() > 0 && (plaintext@.len() > 0
                ==> decrypt_raw_spec(key@, iv@, ct@) == Ok::<Seq<u8>, DecryptError>(plaintext@)) && (
            plaintext@.len() == 0 ==> decrypt_raw_spec(key@, iv@, ct@) == Err::<
                Seq<u8>,
                DecryptError,
            >(DecryptError::EmptyPlaintextAfterUnpad)),
            Err(e) => (key@.len() != 32 || iv@.len() != 16) && e
                == (DecryptError::CipherInitFailure {
                key_length: key@.len() as usize,
                iv_length: iv@.len() as usize,
            }),
        },
{
    if key.len() != 32 || iv.len() != 16 {
        return Err(DecryptError::CipherInitFailure { key_length: key.len(), iv_length: iv.len() });
    }
    let padded = apply_padding(plaintext);
    proof {
        lemma_unpad_pad(plaintext@);
    }
    match cbc_encrypt(key, iv, &padded) {
        Ok(ct) => Ok(ct),
        Err(_) => unreached(),
    }
}

} // verus!
