//! The failure taxonomy of the decryption pipeline. Every condition here is an
//! expected, caller-recoverable outcome; none of them is a panic.

use vstd::prelude::*;

verus! {

/// Which of the three caller-supplied inputs a failure is about.
#[derive(Clone, Copy, Debug, PartialEq, Eq, Structural)]
pub enum InputField {
    Key,
    Iv,
    Ciphertext,
}

/// Why a decryption call failed. Each variant carries the context needed to
/// render an actionable message: which field was at fault and, for length
/// failures, the expected and actual lengths.
///
/// `PaddingValidationFailure` covers wrong key/IV, corrupted ciphertext and
/// tampering alike: CBC mode carries no authentication tag, so these causes
/// are indistinguishable by design.
#[derive(Clone, Copy, Debug, PartialEq, Eq, Structural)]
pub enum DecryptError {
    /// A key/IV string or the ciphertext buffer was empty.
    EmptyInput { field: InputField },
    /// The ciphertext length is not a positive multiple of the block size.
    UnalignedCiphertext { length: usize },
    /// A key/IV string was not valid standard base64.
    Base64DecodeFailure { field: InputField },
    /// The base64 key decoded to other than exactly 32 bytes.
    KeyLengthMismatch { expected: usize, actual: usize },
    /// The base64 IV decoded to other than exactly 16 bytes.
    IvLengthMismatch { expected: usize, actual: usize },
    /// The block-cipher engine was handed a key or IV of the wrong length.
    CipherInitFailure { key_length: usize, iv_length: usize },
    /// The decrypted buffer did not end in valid PKCS7 padding.
    PaddingValidationFailure,
    /// Unpadding succeeded but left no plaintext at all.
    EmptyPlaintextAfterUnpad,
}

} // verus!
