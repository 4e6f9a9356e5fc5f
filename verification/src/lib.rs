//! AES-256-CBC decryption of in-memory byte buffers, with PKCS7 unpadding and
//! image-format sniffing of the resulting plaintext.
//!
//! The caller supplies ciphertext plus a base64-encoded 256-bit key and
//! 128-bit initialization vector; the pipeline validates the inputs, decodes
//! the key and IV, decrypts block by block in CBC mode, strips the PKCS7
//! padding, and separately classifies the plaintext's leading bytes against
//! known image signatures.
//!
//! CBC mode carries no authentication tag, so a wrong key, a wrong IV,
//! corrupted ciphertext and deliberate tampering are indistinguishable here:
//! all of them surface as a padding validation failure.

pub mod block;
pub mod cbc_mode;
pub mod errors;
pub mod info;
pub mod padding;
pub mod pipeline;
pub mod sniff;
