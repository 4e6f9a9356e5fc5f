//! The 16-byte-block primitives of the pipeline: bytewise XOR, block
//! extraction and copying, and the AES-256 single-block operations, which are
//! the only cryptographic work delegated to an outside crate.

use aes::cipher::generic_array::GenericArray;
use aes::cipher::BlockDecrypt;
use aes::cipher::BlockEncrypt;
use aes::cipher::KeyInit;
use vstd::prelude::*;

verus! {

/// What AES-256 block decryption returns for a 32-byte key and a 16-byte
/// block. The result is a function of the two arguments alone.
pub uninterp spec fn aes256_dec_block(key: Seq<u8>, block: Seq<u8>) -> Seq<u8>;

/// What AES-256 block encryption returns for a 32-byte key and a 16-byte
/// block. The result is a function of the two arguments alone.
pub uninterp spec fn aes256_enc_block(key: Seq<u8>, block: Seq<u8>) -> Seq<u8>;

/// Relies on aes::Aes256 (via cipher::BlockDecrypt::decrypt_block): one AES-256
/// block decryption, a pure function of key and block, returning 16 bytes.
#[verifier::external_body]
pub(crate) fn aes256_decrypt_block(key: &Vec<u8>, block: &Vec<u8>) -> (r: Vec<u8>)
    requires
        key@.len() == 32,
        block@.len() == 16,
    ensures
        r@ == aes256_dec_block(key@, block@),
        r@.len() == 16,
{
    let cipher = aes::Aes256::new_from_slice(key).unwrap();
    let mut b: aes::Block = GenericArray::clone_from_slice(block);
    cipher.decrypt_block(&mut b);
    b.to_vec()
}

/// Relies on aes::Aes256 (via cipher::BlockEncrypt::encrypt_block): one AES-256
/// block encryption, a pure function of key and block, returning 16 bytes.
/// AES block decryption under the same key inverts it (FIPS 197; the crate's
/// own test suite exercises exactly this inverse pair).
#[verifier::external_body]
pub(crate) fn aes256_encrypt_block(key: &Vec<u8>, block: &Vec<u8>) -> (r: Vec<u8>)
    requires
        key@.len() == 32,
        block@.len() == 16,
    ensures
        r@ == aes256_enc_block(key@, block@),
        r@.len() == 16,
        aes256_dec_block(key@, r@) == block@,
{
    let cipher = aes::Aes256::new_from_slice(key).unwrap();
    let mut b: aes::Block = GenericArray::clone_from_slice(block);
    cipher.encrypt_block(&mut b);
    b.to_vec()
}

/// Bytewise XOR of two 16-byte blocks.
pub open spec fn xor16(a: Seq<u8>, b: Seq<u8>) -> Seq<u8> {
    Seq::new(16, |i: int| a[i] ^ b[i])
}

/// XOR-ing with the same block twice gives back the original block.
pub proof fn lemma_xor16_cancel(a: Seq<u8>, b: Seq<u8>)
    requires
        a.len() == 16,
        b.len() == 16,
    ensures
        xor16(xor16(a, b), b) == a,
{
    assert forall|i: int| 0 <= i < 16 implies xor16(xor16(a, b), b)[i] == a[i] by {
        let x = a[i];
        let y = b[i];
        assert((x ^ y) ^ y == x) by (bit_vector);
    }
    assert(xor16(xor16(a, b), b) =~= a);
}

/// Bytewise XOR of two 16-byte blocks.
pub fn xor_block(a: &Vec<u8>, b: &Vec<u8>) -> (r: Vec<u8>)
    requires
        a@.len() == 16,
        b@.len() == 16,
    ensures
        r@ == xor16(a@, b@),
{
    let mut r: Vec<u8> = Vec::new();
    let mut i: usize = 0;
    while i < 16
        invariant
            i <= 16,
            a@.len() == 16,
            b@.len() == 16,
            r@ == xor16(a@, b@).take(i as int),
        decreases 16 - i,
    {
        r.push(a[i] ^ b[i]);
        assert(r@ =~= xor16(a@, b@).take(i + 1));
        i = i + 1;
    }
    assert(r@ =~= xor16(a@, b@));
    r
}

/// Copies the 16-byte block of `data` that starts at `off`.
pub(crate) fn take_block(data: &Vec<u8>, off: usize) -> (r: Vec<u8>)
    requires
        off + 16 <= data@.len(),
    ensures
        r@ == data@.subrange(off as int, off as int + 16),
        r@.len() == 16,
{
    let dlen = data.len();
    let mut r: Vec<u8> = Vec::new();
    let mut i: usize = 0;
    while i < 16
        invariant
            i <= 16,
            dlen == data@.len(),
            off + 16 <= dlen,
            r@ == data@.subrange(off as int, off as int + 16).take(i as int),
        decreases 16 - i,
    {
        r.push(data[off + i]);
        assert(r@ =~= data@.subrange(off as int, off as int + 16).take(i + 1));
        i = i + 1;
    }
    assert(r@ =~= data@.subrange(off as int, off as int + 16));
    r
}

/// Copies a byte vector.
pub(crate) fn copy_bytes(data: &Vec<u8>) -> (r: Vec<u8>)
    ensures
        r@ == data@,
{
    let len = data.len();
    let mut r: Vec<u8> = Vec::new();
    let mut i: usize = 0;
    while i < len
        invariant
            i <= len,
            len == data@.len(),
            r@ == data@.take(i as int),
        decreases len - i,
    {
        r.push(data[i]);
        assert(r@ =~= data@.take(i + 1));
        i = i + 1;
    }
    assert(r@ =~= data@);
    r
}

} // verus!
