use std::sync::Arc;

use lux_aurumque::pipeline::{self, Input, VisionError};
use lux_aurumque::process::Occasion;
use lux_aurumque::vision::{
    self, Antecedent, AudioPrehension, ConcrescenceError, ExifPrehension, ImagePrehension,
    MockVisionClient, OcrPrehension,
};

fn image_prehension(w: u32, h: u32) -> ImagePrehension {
    ImagePrehension {
        raw_bytes: Arc::new(vec![0u8; 16]),
        media_type: "image/png",
        width: w,
        height: h,
        estimated_tokens: (w as u64 * h as u64 / 750) as u32 + 1,
    }
}

fn image_input(w: u32, h: u32) -> pipeline::ImageInput {
    pipeline::ImageInput {
        raw_bytes: Arc::new(vec![0u8; 16]),
        media_type: "image/png",
        width: w,
        height: h,
        estimated_tokens: (w as u64 * h as u64 / 750) as u32 + 1,
    }
}

/// The floating-point reading of each antecedent, rendered as the app does.
fn scalars_of(ants: &[Antecedent]) -> Vec<String> {
    ants.iter()
        .map(|a| match a {
            Antecedent::Ocr(o) => format!("{:.2}", f32::from_bits(o.confidence_bits)),
            Antecedent::Audio(a) => format!("{:.1}", f32::from_bits(a.duration_bits)),
            _ => String::new(),
        })
        .collect()
}

fn input_scalars(inputs: &[Input]) -> Vec<String> {
    inputs
        .iter()
        .map(|a| match a {
            Input::Ocr(o) => format!("{:.2}", f32::from_bits(o.confidence_bits)),
            Input::Audio(a) => format!("{:.1}", f32::from_bits(a.duration_bits)),
            _ => String::new(),
        })
        .collect()
}

#[test]
fn mock_synthesis_of_nothing_is_refused() {
    let err = MockVisionClient.synthesize(&[], &vec![]).unwrap_err();
    assert!(matches!(err, ConcrescenceError::NoAntecedents));
    let err = pipeline::MockVisionClient.synthesize(&[], &vec![]).unwrap_err();
    assert!(matches!(err, VisionError::NoInputs));
}

#[test]
fn mock_caption_counts_and_describes_each_prehension() {
    let ants = vec![
        Antecedent::Image(image_prehension(64, 64)),
        Antecedent::Ocr(OcrPrehension { text: "hello".into(), confidence_bits: 0.9f32.to_bits() }),
    ];
    let scene = MockVisionClient.synthesize(&ants, &scalars_of(&ants)).unwrap();
    assert_eq!(scene.contributing, 2);
    assert!(scene.caption.contains("2 prehensions"));
    assert_eq!(
        scene.caption,
        "concresced from 2 prehensions: [image 64x64 ~6tok] ⊕ [ocr conf=0.90: \"hello\"]"
    );
    // 6 for the image, ceil(5 / 4) = 2 for the text.
    assert_eq!(scene.total_tokens, 8);
}

#[test]
fn mock_pipeline_caption_counts_inputs() {
    let inputs = vec![
        Input::Image(image_input(64, 64)),
        Input::Ocr(pipeline::OcrInput { text: "hello".into(), confidence_bits: 0.9f32.to_bits() }),
    ];
    let scene = pipeline::MockVisionClient.synthesize(&inputs, &input_scalars(&inputs)).unwrap();
    assert_eq!(scene.contributing, 2);
    assert!(scene.caption.contains("2 inputs"));
    assert_eq!(
        scene.caption,
        "synthesised from 2 inputs: [image 64x64 ~6tok] + [ocr conf=0.90: \"hello\"]"
    );
}

#[test]
fn mock_caption_truncates_and_quotes_long_text() {
    let long = "x".repeat(100) + "\"quoted\"";
    let ants = vec![
        Antecedent::Audio(AudioPrehension { transcript: long, duration_bits: 5.0f32.to_bits() }),
        Antecedent::Exif(ExifPrehension { fields: vec![("a".into(), "b".into())] }),
        Antecedent::Ocr(OcrPrehension { text: "say \"hi\"".into(), confidence_bits: 0 }),
    ];
    let scene = MockVisionClient.synthesize(&ants, &scalars_of(&ants)).unwrap();
    let expected = format!(
        "concresced from 3 prehensions: [audio 5.0s: \"{}\"] ⊕ [exif: 1 fields] ⊕ [ocr conf=0.00: \"say \\\"hi\\\"\"]",
        "x".repeat(64)
    );
    assert_eq!(scene.caption, expected);
    assert_eq!(scene.total_tokens, 27 + 8 + 2);
}

#[test]
fn mock_total_tokens_saturate() {
    let mut big = image_prehension(1, 1);
    big.estimated_tokens = u32::MAX - 1;
    let ants = vec![Antecedent::Image(big.clone()), Antecedent::Image(big)];
    let scene = MockVisionClient.synthesize(&ants, &scalars_of(&ants)).unwrap();
    assert_eq!(scene.total_tokens, u32::MAX);
    assert_eq!(vision::saturating_token_total(&ants), u32::MAX);
    assert_eq!(vision::token_diameter(&ants), 2 * (u32::MAX as u64 - 1));
}

#[test]
fn diameter_equals_sum_of_token_weights() {
    let img = image_prehension(100, 100);
    let expected = img.estimated_tokens as u64;
    let ants = vec![Antecedent::Image(img)];
    assert_eq!(vision::token_diameter(&ants), expected);
    let inputs = vec![
        Input::Image(image_input(100, 100)),
        Input::Exif(pipeline::ExifInput { fields: vec![] }),
    ];
    assert_eq!(pipeline::token_diameter(&inputs), 14 + 8);
    assert_eq!(pipeline::saturating_token_total(&inputs), 22);
}

#[test]
fn antecedents_are_satisfied_occasions() {
    let a = Antecedent::Exif(ExifPrehension { fields: vec![] });
    assert!(a.is_satisfied());
    assert!(matches!(a.datum(), Antecedent::Exif(_)));
    assert!(matches!(a.satisfaction(), Some(Antecedent::Exif(_))));
}

#[test]
fn truncate_counts_characters_not_bytes() {
    assert_eq!(vision::truncate("héllo wörld", 4), "héll");
    assert_eq!(vision::truncate("short", 64), "short");
    assert_eq!(pipeline::truncate("", 3), "");
    assert_eq!(pipeline::truncate("abc", 0), "");
}

// Pipeline scenarios, on the synchronous synthesiser.

#[test]
fn mock_synthesize_empty_inputs_errors() {
    let client = Arc::new(pipeline::MockVisionClient);
    let err = client.synthesize(&[], &vec![]).unwrap_err();
    assert!(matches!(err, VisionError::NoInputs));
}

#[test]
fn mock_synthesize_produces_caption_with_count() {
    let client = Arc::new(pipeline::MockVisionClient);
    let inputs = vec![
        Input::Image(image_input(64, 64)),
        Input::Ocr(pipeline::OcrInput { text: "hello".into(), confidence_bits: 0.9f32.to_bits() }),
    ];
    let scene = client.synthesize(&inputs, &input_scalars(&inputs)).unwrap();
    assert_eq!(scene.contributing, 2);
    assert!(scene.caption.contains("2 inputs"));
}

#[test]
fn pipeline_diameter_equals_sum_of_token_weights() {
    let img = image_input(100, 100);
    let expected = img.estimated_tokens as f64;
    let inputs = vec![Input::Image(img)];
    assert!((pipeline::token_diameter(&inputs) as f64 - expected).abs() < 1.0);
}

#[test]
fn mock_synthesize_empty_antecedents_errors() {
    let client = Arc::new(MockVisionClient);
    let err = client.synthesize(&[], &vec![]).unwrap_err();
    assert!(matches!(err, ConcrescenceError::NoAntecedents));
}

#[test]
fn tests_mock_synthesize_produces_caption_with_count() {
    let client = Arc::new(MockVisionClient);
    let ants = vec![
        Antecedent::Image(image_prehension(64, 64)),
        Antecedent::Ocr(OcrPrehension { text: "hello".into(), confidence_bits: 0.9f32.to_bits() }),
    ];
    let scene = client.synthesize(&ants, &scalars_of(&ants)).unwrap();
    assert_eq!(scene.contributing, 2);
    assert!(scene.caption.contains("2 prehensions"));
}

#[test]
fn society_diameter_equals_sum_of_token_weights() {
    let img = image_prehension(100, 100);
    let expected = img.estimated_tokens as f64;
    let ants = vec![Antecedent::Image(img)];
    assert!((vision::token_diameter(&ants) as f64 - expected).abs() < 1.0);
}
