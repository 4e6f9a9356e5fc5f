//! Format sniffing: classify a plaintext buffer by its leading bytes against
//! fixed image signatures. First match wins; no byte is consumed or mutated,
//! and absence of a match is a normal result, not an error.

use vstd::prelude::*;

verus! {

/// The known image container formats, plus `Unknown` for no match.
#[derive(Clone, Copy, Debug, PartialEq, Eq, Structural)]
pub enum ImageTypeTag {
    Jpeg,
    Png,
    Gif,
    Webp,
    Bmp,
    Unknown,
}

impl ImageTypeTag {
    /// The MIME-style name of the format; empty for `Unknown`.
    pub open spec fn mime_type_spec(self) -> Seq<char> {
        match self {
            ImageTypeTag::Jpeg => "image/jpeg"@,
            ImageTypeTag::Png => "image/png"@,
            ImageTypeTag::Gif => "image/gif"@,
            ImageTypeTag::Webp => "image/webp"@,
            ImageTypeTag::Bmp => "image/bmp"@,
            ImageTypeTag::Unknown => ""@,
        }
    }

    /// The MIME-style name of the format; empty for `Unknown`.
    pub fn mime_type(self) -> (r: String)
        ensures
            r@ == self.mime_type_spec(),
    {
        match self {
            ImageTypeTag::Jpeg => "image/jpeg".to_owned(),
            ImageTypeTag::Png => "image/png".to_owned(),
            ImageTypeTag::Gif => "image/gif".to_owned(),
            ImageTypeTag::Webp => "image/webp".to_owned(),
            ImageTypeTag::Bmp => "image/bmp".to_owned(),
            ImageTypeTag::Unknown => "".to_owned(),
        }
    }
}

/// `data` begins with `prefix`.
pub open spec fn starts_with_bytes(data: Seq<u8>, prefix: Seq<u8>) -> bool {
    prefix.len() <= data.len() && data.subrange(0, prefix.len() as int) == prefix
}

/// The JPEG signature `FF D8 FF`.
pub open spec fn jpeg_sig() -> Seq<u8> {
    seq![0xFFu8, 0xD8u8, 0xFFu8]
}

/// The 8-byte PNG signature.
pub open spec fn png_sig() -> Seq<u8> {
    seq![0x89u8, 0x50u8, 0x4Eu8, 0x47u8, 0x0Du8, 0x0Au8, 0x1Au8, 0x0Au8]
}

/// "GIF87a" as bytes.
pub open spec fn gif87_sig() -> Seq<u8> {
    seq![0x47u8, 0x49u8, 0x46u8, 0x38u8, 0x37u8, 0x61u8]
}

/// "GIF89a" as bytes.
pub open spec fn gif89_sig() -> Seq<u8> {
    seq![0x47u8, 0x49u8, 0x46u8, 0x38u8, 0x39u8, 0x61u8]
}

/// "RIFF" as bytes.
pub open spec fn riff_sig() -> Seq<u8> {
    seq![0x52u8, 0x49u8, 0x46u8, 0x46u8]
}

/// "WEBP" as bytes.
pub open spec fn webp_sig() -> Seq<u8> {
    seq![0x57u8, 0x45u8, 0x42u8, 0x50u8]
}

/// "BM" as bytes.
pub open spec fn bmp_sig() -> Seq<u8> {
    seq![0x42u8, 0x4Du8]
}

/// The tag of the first matching signature: JPEG, then PNG, then GIF (87a or
/// 89a), then WEBP (`RIFF....WEBP`, needing at least 12 bytes), then BMP. A
/// buffer shorter than 8 bytes, or one matching nothing, is `Unknown`.
pub open spec fn classify_tag(data: Seq<u8>) -> ImageTypeTag {
    if data.len() < 8 {
        ImageTypeTag::Unknown
    } else if starts_with_bytes(data, jpeg_sig()) {
        ImageTypeTag::Jpeg
    } else if starts_with_bytes(data, png_sig()) {
        ImageTypeTag::Png
    } else if starts_with_bytes(data, gif87_sig()) || starts_with_bytes(data, gif89_sig()) {
        ImageTypeTag::Gif
    } else if data.len() >= 12 && starts_with_bytes(data, riff_sig()) && data.subrange(8, 12)
        == webp_sig() {
        ImageTypeTag::Webp
    } else if starts_with_bytes(data, bmp_sig()) {
        ImageTypeTag::Bmp
    } else {
        ImageTypeTag::Unknown
    }
}

/// What `classify` reports: the tag, whether a known format matched, and the
/// buffer's byte length.
#[derive(Clone, Copy, Debug, PartialEq, Eq, Structural)]
pub struct ClassifyResult {
    pub tag: ImageTypeTag,
    pub is_valid: bool,
    pub size_bytes: usize,
}

/// `data[at ..]` begins with the bytes of `prefix`.
fn bytes_match_at(data: &Vec<u8>, prefix: &Vec<u8>, at: usize) -> (r: bool)
    requires
        at + prefix@.len() <= data@.len(),
    ensures
        r == (data@.subrange(at as int, at as int + prefix@.len()) == prefix@),
{
    let dlen = data.len();
    let plen = prefix.len();
    let mut i: usize = 0;
    while i < plen
        invariant
            i <= plen,
            plen == prefix@.len(),
            dlen == data@.len(),
            at + plen <= dlen,
            forall|j: int| 0 <= j < i ==> data@[at + j] == prefix@[j],
        decreases plen - i,
    {
        if data[at + i] != prefix[i] {
            proof {
                let sub = data@.subrange(at as int, at as int + plen);
                assert(sub[i as int] == data@[at + i]);
            }
            return false;
        }
        i = i + 1;
    }
    proof {
        assert(data@.subrange(at as int, at as int + plen) =~= prefix@);
    }
    true
}

/// Inspects the first bytes of `data` against the known image signatures.
/// First match wins. `is_valid` says whether any known format matched, and
/// `size_bytes` is the buffer's length; there is no failure path.
pub fn classify(data: &Vec<u8>) -> (r: ClassifyResult)
    ensures
        r.tag == classify_tag(data@),
        r.is_valid == (r.tag != ImageTypeTag::Unknown),
        r.size_bytes == data@.len(),
{
    let len = data.len();
    let mut jpeg: Vec<u8> = Vec::new();
    jpeg.push(0xFF);
    jpeg.push(0xD8);
    jpeg.push(0xFF);
    proof {
        assert(jpeg@ =~= jpeg_sig());
    }
    let mut png: Vec<u8> = Vec::new();
    png.push(0x89);
    png.push(0x50);
    png.push(0x4E);
    png.push(0x47);
    png.push(0x0D);
    png.push(0x0A);
    png.push(0x1A);
    png.push(0x0A);
    proof {
        assert(png@ =~= png_sig());
    }
    let mut gif87: Vec<u8> = Vec::new();
    gif87.push(0x47);
    gif87.push(0x49);
    gif87.push(0x46);
    gif87.push(0x38);
    gif87.push(0x37);
    gif87.push(0x61);
    proof {
        assert(gif87@ =~= gif87_sig());
    }
    let mut gif89: Vec<u8> = Vec::new();
    gif89.push(0x47);
    gif89.push(0x49);
    gif89.push(0x46);
    gif89.push(0x38);
    gif89.push(0x39);
    gif89.push(0x61);
    proof {
        assert(gif89@ =~= gif89_sig());
    }
    let mut riff: Vec<u8> = Vec::new();
    riff.push(0x52);
    riff.push(0x49);
    riff.push(0x46);
    riff.push(0x46);
    proof {
        assert(riff@ =~= riff_sig());
    }
    let mut webp: Vec<u8> = Vec::new();
    webp.push(0x57);
    webp.push(0x45);
    webp.push(0x42);
    webp.push(0x50);
    proof {
        assert(webp@ =~= webp_sig());
    }
    let mut bmp: Vec<u8> = Vec::new();
    bmp.push(0x42);
    bmp.push(0x4D);
    proof {
        assert(bmp@ =~= bmp_sig());
    }
    let tag = if len < 8 {
        ImageTypeTag::Unknown
    } else if bytes_match_at(data, &jpeg, 0) {
        ImageTypeTag::Jpeg
    } else if bytes_match_at(data, &png, 0) {
        ImageTypeTag::Png
    } else if bytes_match_at(data, &gif87, 0) || bytes_match_at(data, &gif89, 0) {
        ImageTypeTag::Gif
    } else if len >= 12 && bytes_match_at(data, &riff, 0) && bytes_match_at(data, &webp, 8) {
        ImageTypeTag::Webp
    } else if bytes_match_at(data, &bmp, 0) {
        ImageTypeTag::Bmp
    } else {
        ImageTypeTag::Unknown
    };
    let is_valid = tag != ImageTypeTag::Unknown;
    ClassifyResult { tag, is_valid, size_bytes: len }
}

} // verus!
