use std::path::Path;
use std::sync::Arc;

use lux_aurumque::pipeline::{self, ImageInput};
use lux_aurumque::vision::{self, ImagePrehension};

fn dummy_input() -> ImageInput {
    ImageInput {
        raw_bytes: Arc::new(vec![]),
        media_type: "image/png",
        width: 10,
        height: 10,
        estimated_tokens: 1,
    }
}

fn dummy_prehension() -> ImagePrehension {
    ImagePrehension {
        raw_bytes: Arc::new(vec![]),
        media_type: "image/png",
        width: 10,
        height: 10,
        estimated_tokens: 1,
    }
}

#[test]
fn stub_ocr_returns_zero_confidence() {
    let img = dummy_input();
    let ocr = pipeline::stub_ocr(&img);
    assert_eq!(f32::from_bits(ocr.confidence_bits), 0.0);
    assert!(!ocr.text.is_empty());
}

#[test]
fn stub_exif_records_source_path() {
    let path = Path::new("/some/image.png");
    let exif = pipeline::stub_exif(&path.display().to_string());
    let source = exif.fields.iter().find(|(k, _)| k == "source_path");
    assert!(source.is_some());
    assert!(source.unwrap().1.contains("image.png"));
}

#[test]
fn tests_stub_ocr_returns_zero_confidence() {
    let img = dummy_prehension();
    let ocr = vision::stub_ocr(&img);
    assert_eq!(f32::from_bits(ocr.confidence_bits), 0.0);
    assert!(!ocr.text.is_empty());
}

#[test]
fn tests_stub_exif_records_source_path() {
    let path = Path::new("/some/image.png");
    let exif = vision::stub_exif(&path.display().to_string());
    let source = exif.fields.iter().find(|(k, _)| k == "source_path");
    assert!(source.is_some());
    assert!(source.unwrap().1.contains("image.png"));
}

#[test]
fn stub_exif_marks_provenance() {
    let exif = vision::stub_exif("frame.jpg");
    assert_eq!(
        exif.fields,
        vec![
            ("source_path".to_string(), "frame.jpg".to_string()),
            ("provenance".to_string(), "stub".to_string()),
        ]
    );
}
