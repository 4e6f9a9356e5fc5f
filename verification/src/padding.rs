//! PKCS7 padding: the pad byte value equals the pad length, appended until the
//! buffer length is a multiple of the 16-byte AES block size.

use vstd::prelude::*;

verus! {

/// How many pad bytes PKCS7 appends to a buffer of length `len`: always
/// between 1 and 16, so that the padded length is a positive multiple of 16.
pub open spec fn pad_len(len: nat) -> nat {
    (16 - (len % 16)) as nat
}

/// `p` followed by its PKCS7 padding.
pub open spec fn pkcs7_pad(p: Seq<u8>) -> Seq<u8> {
    p + Seq::new(pad_len(p.len()), |i: int| pad_len(p.len()) as u8)
}

/// PKCS7 unpadding: read the final byte `n`; if `1 <= n <= 16` and the last
/// `n` bytes all equal `n`, the payload is everything before them. Anything
/// else - including an empty buffer - has no valid unpadding.
pub open spec fn pkcs7_unpad(buf: Seq<u8>) -> Option<Seq<u8>> {
    if buf.len() == 0 {
        None
    } else {
        let n = buf.last() as int;
        if 1 <= n <= 16 && n <= buf.len()
            && (forall|i: int| buf.len() - n <= i < buf.len() ==> buf[i] == buf.last())
        {
            Some(buf.take(buf.len() - n))
        } else {
            None
        }
    }
}

/// Padding then unpadding gives back the original buffer, and the padded
/// length is the next positive multiple of 16.
pub proof fn lemma_unpad_pad(p: Seq<u8>)
    ensures
        pkcs7_pad(p).len() == p.len() + pad_len(p.len()),
        pkcs7_pad(p).len() % 16 == 0,
        pkcs7_pad(p).len() > 0,
        pkcs7_unpad(pkcs7_pad(p)) == Some(p),
{
    let n = pad_len(p.len());
    let padded = pkcs7_pad(p);
    assert(1 <= n <= 16);
    assert(padded.len() == p.len() + n);
    assert((p.len() + n) % 16 == 0) by {
        vstd::arithmetic::div_mod::lemma_fundamental_div_mod(p.len() as int, 16);
        vstd::arithmetic::div_mod::lemma_mod_multiples_vanish(
            (p.len() / 16 + 1) as int,
            0,
            16,
        );
    }
    assert(padded.last() == n as u8);
    assert(forall|i: int| padded.len() - n <= i < padded.len() ==> padded[i] == n as u8);
    assert(padded.take(padded.len() - n) =~= p);
}

/// Strips and validates PKCS7 padding, yielding the exact payload, or `None`
/// when the trailing bytes are not a valid padding.
pub fn strip_padding(buf: &Vec<u8>) -> (r: Option<Vec<u8>>)
    ensures
        match r {
            Some(v) => pkcs7_unpad(buf@) == Some(v@),
            None => pkcs7_unpad(buf@) is None,
        },
{
    let len = buf.len();
    if len == 0 {
        return None;
    }
    let n = buf[len - 1];
    if n < 1 || n > 16 {
        return None;
    }
    let pad = n as usize;
    if pad > len {
        return None;
    }
    let mut i: usize = len - pad;
    while i < len
        invariant
            len == buf@.len(),
            len - pad <= i <= len,
            pad == n as int,
            n == buf@.last(),
            1 <= pad <= 16,
            pad <= len,
            forall|j: int| len - pad <= j < i ==> buf@[j] == n,
        decreases len - i,
    {
        if buf[i] != n {
            return None;
        }
        i = i + 1;
    }
    let mut out: Vec<u8> = Vec::new();
    let keep = len - pad;
    let mut k: usize = 0;
    while k < keep
        invariant
            keep <= buf@.len(),
            k <= keep,
            out@ == buf@.take(keep as int).take(k as int),
        decreases keep - k,
    {
        out.push(buf[k]);
        assert(out@ =~= buf@.take(keep as int).take(k + 1));
        k = k + 1;
    }
    assert(out@ =~= buf@.take(keep as int));
    Some(out)
}

/// Appends PKCS7 padding, making the length a positive multiple of 16.
pub fn apply_padding(p: &Vec<u8>) -> (r: Vec<u8>)
    requires
        p@.len() + 16 <= usize::MAX,
    ensures
        r@ == pkcs7_pad(p@),
{
    let len = p.len();
    let n: u8 = (16 - (len % 16) as u8) as u8;
    let total = len + (n as usize);
    let mut out: Vec<u8> = Vec::new();
    let mut k: usize = 0;
    while k < len
        invariant
            k <= len,
            len == p@.len(),
            out@ == p@.take(k as int),
        decreases len - k,
    {
        out.push(p[k]);
        assert(out@ =~= p@.take(k + 1));
        k = k + 1;
    }
    assert(out@ =~= p@);
    while k < total
        invariant
            len <= k <= total,
            len == p@.len(),
            total == len + n,
            n == pad_len(p@.len()),
            out@ == pkcs7_pad(p@).take(k as int),
        decreases total - k,
    {
        out.push(n);
        assert(out@ =~= pkcs7_pad(p@).take(k + 1));
        k = k + 1;
    }
    assert(out@ =~= pkcs7_pad(p@));
    out
}

} // verus!
