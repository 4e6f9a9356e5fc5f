//! The block-cipher engine: AES-256 in CBC mode. Each plaintext block is
//! `Decrypt(C_i) XOR C_{i-1}` with `C_{-1} = IV`, so blocks are processed
//! strictly in order; the AES work on a single block is delegated to the
//! outside cipher, everything around it is verified here.

use crate::block::aes256_dec_block;
use crate::block::aes256_decrypt_block;
use crate::block::aes256_enc_block;
use crate::block::aes256_encrypt_block;
use crate::block::copy_bytes;
use crate::block::lemma_xor16_cancel;
use crate::block::take_block;
use crate::block::xor16;
use crate::block::xor_block;
use crate::errors::DecryptError;
use vstd::prelude::*;

verus! {

/// CBC decryption of `ct` under `key`, where `prev` is the ciphertext block
/// chained into the first block (the IV at the top call). Any trailing bytes
/// short of a full block are ignored; the engine is only invoked on aligned
/// buffers.
pub open spec fn cbc_decrypt_bytes(key: Seq<u8>, prev: Seq<u8>, ct: Seq<u8>) -> Seq<u8>
    decreases ct.len(),
{
    if ct.len() < 16 {
        Seq::empty()
    } else {
        xor16(aes256_dec_block(key, ct.take(16)), prev) + cbc_decrypt_bytes(
            key,
            ct.take(16),
            ct.skip(16),
        )
    }
}

/// CBC encryption of `pt` under `key`, where `prev` is the previous ciphertext
/// block (the IV at the top call).
pub open spec fn cbc_encrypt_bytes(key: Seq<u8>, prev: Seq<u8>, pt: Seq<u8>) -> Seq<u8>
    decreases pt.len(),
{
    if pt.len() < 16 {
        Seq::empty()
    } else {
        let c = aes256_enc_block(key, xor16(pt.take(16), prev));
        c + cbc_encrypt_bytes(key, c, pt.skip(16))
    }
}

/// The block chained into whatever follows `ct`: the IV while no ciphertext
/// block exists yet, the last ciphertext block afterwards.
pub open spec fn chain_block(iv: Seq<u8>, ct: Seq<u8>) -> Seq<u8> {
    if ct.len() == 0 {
        iv
    } else {
        ct.skip(ct.len() - 16)
    }
}

/// Appending one ciphertext block extends a CBC decryption by exactly that
/// block's plaintext, chained off the previous ciphertext block.
pub proof fn lemma_cbc_decrypt_snoc(key: Seq<u8>, iv: Seq<u8>, ct: Seq<u8>, c: Seq<u8>)
    requires
        ct.len() % 16 == 0,
        c.len() == 16,
    ensures
        cbc_decrypt_bytes(key, iv, ct + c) == cbc_decrypt_bytes(key, iv, ct) + xor16(
            aes256_dec_block(key, c),
            chain_block(iv, ct),
        ),
    decreases ct.len(),
{
    if ct.len() == 0 {
        let whole = ct + c;
        assert(whole =~= c);
        assert(whole.take(16) =~= c);
        assert(whole.skip(16) =~= Seq::<u8>::empty());
        assert(cbc_decrypt_bytes(key, whole.take(16), whole.skip(16)) =~= Seq::<u8>::empty());
        assert(cbc_decrypt_bytes(key, iv, ct) =~= Seq::<u8>::empty());
        assert(cbc_decrypt_bytes(key, iv, ct + c) =~= xor16(
            aes256_dec_block(key, c),
            chain_block(iv, ct),
        ));
        assert(cbc_decrypt_bytes(key, iv, ct) + xor16(aes256_dec_block(key, c), chain_block(iv, ct))
            =~= xor16(aes256_dec_block(key, c), chain_block(iv, ct)));
    } else {
        assert(ct.len() >= 16);
        let whole = ct + c;
        let head = ct.take(16);
        let tail = ct.skip(16);
        assert(whole.take(16) =~= head);
        assert(whole.skip(16) =~= tail + c);
        assert(tail.len() % 16 == 0);
        lemma_cbc_decrypt_snoc(key, head, tail, c);
        assert(chain_block(head, tail) == chain_block(iv, ct)) by {
            if tail.len() == 0 {
                assert(ct.skip(ct.len() - 16) =~= head);
            } else {
                assert(tail.skip(tail.len() - 16) =~= ct.skip(ct.len() - 16));
            }
        }
        let front = xor16(aes256_dec_block(key, head), iv);
        let last = xor16(aes256_dec_block(key, c), chain_block(iv, ct));
        assert(cbc_decrypt_bytes(key, iv, whole) == front + (cbc_decrypt_bytes(key, head, tail)
            + last));
        assert(front + (cbc_decrypt_bytes(key, head, tail) + last) =~= (front
            + cbc_decrypt_bytes(key, head, tail)) + last);
    }
}

/// AES-256-CBC decryption of a block-aligned buffer. Fails only when the key
/// or IV has the wrong length; the output keeps the trailing padding bytes,
/// whose removal is a separate stage.
pub fn cbc_decrypt(key: &Vec<u8>, iv: &Vec<u8>, ciphertext: &Vec<u8>) -> (r: Result<
    Vec<u8>,
    DecryptError,
>)
    requires
        ciphertext@.len() % 16 == 0,
    ensures
        match r {
            Ok(v) => key@.len() == 32 && iv@.len() == 16 && v@ == cbc_decrypt_bytes(
                key@,
                iv@,
                ciphertext@,
            ) && v@.len() == ciphertext@.len(),
            Err(e) => (key@.len() != 32 || iv@.len() != 16) && e
                == (DecryptError::CipherInitFailure {
                key_length: key@.len() as usize,
                iv_length: iv@.len() as usize,
            }),
        },
{
    if key.len() != 32 || iv.len() != 16 {
        return Err(DecryptError::CipherInitFailure { key_length: key.len(), iv_length: iv.len() });
    }
    let n = ciphertext.len();
    let mut out: Vec<u8> = Vec::new();
    let mut prev: Vec<u8> = copy_bytes(iv);
    let mut off: usize = 0;
    proof {
        assert(ciphertext@.skip(0) =~= ciphertext@);
        assert(Seq::<u8>::empty() + cbc_decrypt_bytes(key@, iv@, ciphertext@) =~= cbc_decrypt_bytes(
            key@,
            iv@,
            ciphertext@,
        ));
    }
    while off < n
        invariant
            n == ciphertext@.len(),
            n % 16 == 0,
            off % 16 == 0,
            off <= n,
            key@.len() == 32,
            prev@.len() == 16,
            out@.len() == off,
            cbc_decrypt_bytes(key@, iv@, ciphertext@) == out@ + cbc_decrypt_bytes(
                key@,
                prev@,
                ciphertext@.skip(off as int),
            ),
        decreases n - off,
    {
        assert(off + 16 <= n);
        let cblk = take_block(ciphertext, off);
        let d = aes256_decrypt_block(key, &cblk);
        let p = xor_block(&d, &prev);
        proof {
            let rest = ciphertext@.skip(off as int);
            assert(rest.take(16) =~= cblk@);
            assert(rest.skip(16) =~= ciphertext@.skip(off + 16));
            assert(cbc_decrypt_bytes(key@, prev@, rest) == p@ + cbc_decrypt_bytes(
                key@,
                cblk@,
                ciphertext@.skip(off + 16),
            ));
            assert(out@ + (p@ + cbc_decrypt_bytes(key@, cblk@, ciphertext@.skip(off + 16))) =~= (
            out@ + p@) + cbc_decrypt_bytes(key@, cblk@, ciphertext@.skip(off + 16)));
        }
        let mut pm = p;
        out.append(&mut pm);
        prev = cblk;
        off = off + 16;
    }
    proof {
        assert(ciphertext@.skip(n as int) =~= Seq::<u8>::empty());
        assert(out@ + Seq::<u8>::empty() =~= out@);
    }
    Ok(out)
}

/// AES-256-CBC encryption of a block-aligned buffer. Fails only when the key
/// or IV has the wrong length. Beside describing the ciphertext, the contract
/// states that CBC decryption under the same key and IV gives back the input:
/// the round-trip identity at the block-cipher level.
pub fn cbc_encrypt(key: &Vec<u8>, iv: &Vec<u8>, data: &Vec<u8>) -> (r: Result<
    Vec<u8>,
    DecryptError,
>)
    requires
        data@.len() % 16 == 0,
    ensures
        match r {
            Ok(v) => key@.len() == 32 && iv@.len() == 16 && v@ == cbc_encrypt_bytes(
                key@,
                iv@,
                data@,
            ) && v@.len() == data@.len() && cbc_decrypt_bytes(key@, iv@, v@) == data@,
            Err(e) => (key@.len() != 32 || iv@.len() != 16) && e
                == (DecryptError::CipherInitFailure {
                key_length: key@.len() as usize,
                iv_length: iv@.len() as usize,
            }),
        },
{
    if key.len() != 32 || iv.len() != 16 {
        return Err(DecryptError::CipherInitFailure { key_length: key.len(), iv_length: iv.len() });
    }
    let n = data.len();
    let mut out: Vec<u8> = Vec::new();
    let mut prev: Vec<u8> = copy_bytes(iv);
    let mut off: usize = 0;
    proof {
        assert(data@.skip(0) =~= data@);
        assert(Seq::<u8>::empty() + cbc_encrypt_bytes(key@, iv@, data@) =~= cbc_encrypt_bytes(
            key@,
            iv@,
            data@,
        ));
        assert(cbc_decrypt_bytes(key@, iv@, Seq::<u8>::empty()) =~= data@.take(0));
    }
    while off < n
        invariant
            n == data@.len(),
            n % 16 == 0,
            off % 16 == 0,
            off <= n,
            key@.len() == 32,
            prev@.len() == 16,
            out@.len() == off,
            prev@ == chain_block(iv@, out@),
            cbc_encrypt_bytes(key@, iv@, data@) == out@ + cbc_encrypt_bytes(
                key@,
                prev@,
                data@.skip(off as int),
            ),
            cbc_decrypt_bytes(key@, iv@, out@) == data@.take(off as int),
        decreases n - off,
    {
        assert(off + 16 <= n);
        let pblk = take_block(data, off);
        let x = xor_block(&pblk, &prev);
        let c = aes256_encrypt_block(key, &x);
        proof {
            let rest = data@.skip(off as int);
            assert(rest.take(16) =~= pblk@);
            assert(rest.skip(16) =~= data@.skip(off + 16));
            assert(cbc_encrypt_bytes(key@, prev@, rest) == c@ + cbc_encrypt_bytes(
                key@,
                c@,
                data@.skip(off + 16),
            ));
            assert(out@ + (c@ + cbc_encrypt_bytes(key@, c@, data@.skip(off + 16))) =~= (out@ + c@)
                + cbc_encrypt_bytes(key@, c@, data@.skip(off + 16)));
            lemma_cbc_decrypt_snoc(key@, iv@, out@, c@);
            lemma_xor16_cancel(pblk@, prev@);
            assert(xor16(aes256_dec_block(key@, c@), prev@) == pblk@);
            assert(data@.take(off as int) + pblk@ =~= data@.take(off + 16));
            assert((out@ + c@).skip((out@ + c@).len() - 16) =~= c@);
        }
        let cc = copy_bytes(&c);
        let mut cm = c;
        out.append(&mut cm);
        prev = cc;
        off = off + 16;
    }
    proof {
        assert(data@.skip(n as int) =~= Seq::<u8>::empty());
        assert(out@ + Seq::<u8>::empty() =~= out@);
        assert(data@.take(n as int) =~= data@);
    }
    Ok(out)
}

} // verus!
