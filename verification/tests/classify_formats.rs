// Format sniffing: each signature, the first-match-wins order, the short and
// empty buffers, and the MIME-style names.

use imgdec::info::algorithm_name;
use imgdec::info::version;
use imgdec::sniff::classify;
use imgdec::sniff::ImageTypeTag;

fn padded_to(mut head: Vec<u8>, len: usize) -> Vec<u8> {
    while head.len() < len {
        head.push(0);
    }
    head
}

#[test]
fn jpeg_leading_bytes() {
    let data = padded_to(vec![0xFF, 0xD8, 0xFF, 0xD8], 8);
    let r = classify(&data);
    assert_eq!(r.tag, ImageTypeTag::Jpeg);
    assert!(r.is_valid);
    assert_eq!(r.size_bytes, 8);
    assert_eq!(r.tag.mime_type(), "image/jpeg");
}

#[test]
fn png_signature() {
    let data = vec![0x89, 0x50, 0x4E, 0x47, 0x0D, 0x0A, 0x1A, 0x0A];
    let r = classify(&data);
    assert_eq!(r.tag, ImageTypeTag::Png);
    assert!(r.is_valid);
    assert_eq!(r.size_bytes, 8);
    assert_eq!(r.tag.mime_type(), "image/png");
}

#[test]
fn four_zero_bytes_are_unknown() {
    let data = vec![0u8; 4];
    let r = classify(&data);
    assert_eq!(r.tag, ImageTypeTag::Unknown);
    assert!(!r.is_valid);
    assert_eq!(r.size_bytes, 4);
    assert_eq!(r.tag.mime_type(), "");
}

#[test]
fn empty_buffer_is_unknown() {
    let data: Vec<u8> = Vec::new();
    let r = classify(&data);
    assert_eq!(r.tag, ImageTypeTag::Unknown);
    assert!(!r.is_valid);
    assert_eq!(r.size_bytes, 0);
}

#[test]
fn gif_both_versions() {
    let r87 = classify(&padded_to(b"GIF87a".to_vec(), 8));
    assert_eq!(r87.tag, ImageTypeTag::Gif);
    let r89 = classify(&padded_to(b"GIF89a".to_vec(), 8));
    assert_eq!(r89.tag, ImageTypeTag::Gif);
    assert_eq!(r89.tag.mime_type(), "image/gif");
}

#[test]
fn webp_needs_riff_and_webp_markers() {
    let mut data = b"RIFF".to_vec();
    data.extend_from_slice(&[1, 2, 3, 4]);
    data.extend_from_slice(b"WEBP");
    let r = classify(&data);
    assert_eq!(r.tag, ImageTypeTag::Webp);
    assert_eq!(r.size_bytes, 12);
    assert_eq!(r.tag.mime_type(), "image/webp");
}

#[test]
fn riff_without_webp_marker_is_unknown() {
    let mut data = b"RIFF".to_vec();
    data.extend_from_slice(&[1, 2, 3, 4]);
    data.extend_from_slice(b"WAVE");
    let r = classify(&data);
    assert_eq!(r.tag, ImageTypeTag::Unknown);
}

#[test]
fn riff_shorter_than_twelve_bytes_is_unknown() {
    // "RIFF" plus four bytes: too short for the WEBP marker to exist.
    let mut data = b"RIFF".to_vec();
    data.extend_from_slice(&[1, 2, 3, 4]);
    let r = classify(&data);
    assert_eq!(r.tag, ImageTypeTag::Unknown);
}

#[test]
fn bmp_header() {
    let data = padded_to(b"BM".to_vec(), 8);
    let r = classify(&data);
    assert_eq!(r.tag, ImageTypeTag::Bmp);
    assert_eq!(r.tag.mime_type(), "image/bmp");
}

#[test]
fn seven_byte_jpeg_prefix_is_still_unknown() {
    // Shorter than 8 bytes: unknown even though the JPEG bytes are there.
    let data = vec![0xFF, 0xD8, 0xFF, 0, 0, 0, 0];
    let r = classify(&data);
    assert_eq!(r.tag, ImageTypeTag::Unknown);
    assert_eq!(r.size_bytes, 7);
}

#[test]
fn static_capability_strings() {
    assert_eq!(algorithm_name(), "AES-256-CBC");
    assert_eq!(version(), "1.0.0");
}
