use std::io::Cursor;

use lux_aurumque::media::{data_uri, decode_dimensions, media_type_for, Payload};
use lux_aurumque::pipeline::{self, VisionError};
use lux_aurumque::vision::{self, ConcrescenceError};

fn png_bytes(w: u32, h: u32) -> Vec<u8> {
    let img = image::RgbImage::from_fn(w, h, |x, y| image::Rgb([(x % 256) as u8, (y % 256) as u8, 7]));
    let mut buf = Vec::new();
    image::DynamicImage::ImageRgb8(img)
        .write_to(&mut Cursor::new(&mut buf), image::ImageFormat::Png)
        .unwrap();
    buf
}

fn noisy_png_bytes(w: u32, h: u32) -> Vec<u8> {
    let img = image::RgbImage::from_fn(w, h, |x, y| {
        let n = x.wrapping_mul(2654435761).wrapping_add(y.wrapping_mul(40503)).rotate_left(7);
        image::Rgb([n as u8, (n >> 8) as u8, (n >> 16) as u8])
    });
    let mut buf = Vec::new();
    image::DynamicImage::ImageRgb8(img)
        .write_to(&mut Cursor::new(&mut buf), image::ImageFormat::Png)
        .unwrap();
    buf
}

#[test]
fn base64_matches_the_standard_vectors() {
    let b64 = |bytes: &[u8]| data_uri("x", bytes)["data:x;base64,".len()..].to_string();
    assert_eq!(b64(b""), "");
    assert_eq!(b64(b"f"), "Zg==");
    assert_eq!(b64(b"fo"), "Zm8=");
    assert_eq!(b64(b"foo"), "Zm9v");
    assert_eq!(b64(b"foob"), "Zm9vYg==");
    assert_eq!(b64(b"fooba"), "Zm9vYmE=");
    assert_eq!(b64(b"foobar"), "Zm9vYmFy");
    assert_eq!(b64(&[0xfb, 0xff]), "+/8=");
}

#[test]
fn data_uri_inlines_the_payload() {
    assert_eq!(data_uri("image/png", b"hello"), "data:image/png;base64,aGVsbG8=");
}

#[test]
fn media_type_follows_the_extension_case_insensitively() {
    assert_eq!(media_type_for(Some("png")), "image/png");
    assert_eq!(media_type_for(Some("PNG")), "image/png");
    assert_eq!(media_type_for(Some("jpg")), "image/jpeg");
    assert_eq!(media_type_for(Some("JpEg")), "image/jpeg");
    assert_eq!(media_type_for(Some("webp")), "image/webp");
    assert_eq!(media_type_for(Some("GIF")), "image/gif");
    assert_eq!(media_type_for(Some("bmp")), "image/png");
    assert_eq!(media_type_for(None), "image/png");
}

#[test]
fn decoding_reports_the_image_size() {
    let png = png_bytes(12, 7);
    assert_eq!(decode_dimensions(&png).unwrap(), (12, 7));
    assert_eq!(vision::decoded_dimensions(&png, "load_image").unwrap(), (12, 7));
    assert!(decode_dimensions(b"not an image").is_err());
}

#[test]
fn undecodable_bytes_are_reported_with_the_call_site() {
    match vision::decoded_dimensions(b"not an image", "load_image") {
        Err(ConcrescenceError::ImageDecode { label, message }) => {
            assert_eq!(label, "load_image");
            assert!(!message.is_empty());
        }
        other => panic!("expected ImageDecode, got {other:?}"),
    }
}

#[test]
fn payload_under_the_cap_is_borrowed_unchanged() {
    let bytes = vec![1u8, 2, 3];
    let (payload, mime) = vision::cap_image(&bytes, "image/webp", 3, 64, "test").unwrap();
    assert!(matches!(payload, Payload::Borrowed(_)));
    assert_eq!(payload.as_slice(), &bytes[..]);
    assert_eq!(mime, "image/webp");
}

#[test]
fn payload_over_the_cap_is_reencoded_as_jpeg() {
    let png = noisy_png_bytes(600, 400);
    assert!(png.len() > 100_000);
    let (payload, mime) = pipeline::cap_image(&png, "image/png", 100_000, 64, "test").unwrap();
    assert_eq!(mime, "image/jpeg");
    assert!(matches!(payload, Payload::Owned(_)));
    let jpeg = payload.as_slice();
    assert_ne!(jpeg, &png[..]);
    // The re-encode fits the side limit, aspect ratio kept.
    let (w, h) = decode_dimensions(jpeg).unwrap();
    assert_eq!((w, h), (64, 43));
    assert_eq!(image::guess_format(jpeg).unwrap(), image::ImageFormat::Jpeg);
    assert!(jpeg.len() <= 100_000);
}

#[test]
fn reencode_still_over_the_cap_is_refused_as_oversized() {
    let png = png_bytes(300, 200);
    match vision::cap_image(&png, "image/png", 10, 64, "anthropic") {
        Err(ConcrescenceError::OversizedInput { kind, bytes, cap }) => {
            assert_eq!(kind, "image");
            assert!(bytes > 10);
            assert_eq!(cap, 10);
        }
        other => panic!("expected OversizedInput, got {:?}", other.map(|(_, m)| m)),
    }
}

#[test]
fn undecodable_payload_over_the_cap_is_refused() {
    match pipeline::cap_image(b"garbage bytes", "image/png", 4, 64, "runway") {
        Err(VisionError::ImageDecode { label, .. }) => assert_eq!(label, "runway"),
        other => panic!("expected ImageDecode, got {:?}", other.map(|(_, m)| m)),
    }
}
