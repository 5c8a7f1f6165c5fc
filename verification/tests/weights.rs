use std::sync::Arc;

use lux_aurumque::pipeline::{AudioInput, ExifInput, ImageInput, Input, OcrInput};
use lux_aurumque::vision::{
    Antecedent, AudioPrehension, ExifPrehension, ImagePrehension, OcrPrehension,
};

fn image_input(w: u32, h: u32) -> ImageInput {
    ImageInput {
        raw_bytes: Arc::new(vec![0u8; 16]),
        media_type: "image/png",
        width: w,
        height: h,
        estimated_tokens: (w as u64 * h as u64 / 750) as u32 + 1,
    }
}

fn image_prehension(w: u32, h: u32) -> ImagePrehension {
    ImagePrehension {
        raw_bytes: Arc::new(vec![0u8; 16]),
        media_type: "image/png",
        width: w,
        height: h,
        estimated_tokens: (w as u64 * h as u64 / 750) as u32 + 1,
    }
}

#[test]
fn image_token_weight_equals_estimated_tokens() {
    let a = Input::Image(image_input(100, 100));
    let img = match &a {
        Input::Image(i) => i,
        _ => unreachable!(),
    };
    assert_eq!(a.token_weight(), img.estimated_tokens);
}

#[test]
fn ocr_token_weight_is_bytes_over_four() {
    let a = Input::Ocr(OcrInput { text: "abcd".into(), confidence_bits: 1.0f32.to_bits() });
    assert_eq!(a.token_weight(), 1);
    let b = Input::Ocr(OcrInput { text: "a".repeat(400), confidence_bits: 0.5f32.to_bits() });
    assert_eq!(b.token_weight(), 100);
}

#[test]
fn exif_token_weight_has_floor_of_eight() {
    let a = Input::Exif(ExifInput { fields: vec![] });
    assert_eq!(a.token_weight(), 8);
}

#[test]
fn audio_token_weight_is_bytes_over_four() {
    let a = Input::Audio(AudioInput {
        transcript: "word".repeat(100),
        duration_bits: 5.0f32.to_bits(),
    });
    assert_eq!(a.token_weight(), 100);
}

#[test]
fn tests_image_token_weight_equals_estimated_tokens() {
    let a = Antecedent::Image(image_prehension(100, 100));
    let img = match &a {
        Antecedent::Image(i) => i,
        _ => unreachable!(),
    };
    assert_eq!(a.token_weight(), img.estimated_tokens);
}

#[test]
fn tests_ocr_token_weight_is_bytes_over_four() {
    let a = Antecedent::Ocr(OcrPrehension { text: "abcd".into(), confidence_bits: 1.0f32.to_bits() });
    assert_eq!(a.token_weight(), 1);
    let b = Antecedent::Ocr(OcrPrehension {
        text: "a".repeat(400),
        confidence_bits: 0.5f32.to_bits(),
    });
    assert_eq!(b.token_weight(), 100);
}

#[test]
fn tests_exif_token_weight_has_floor_of_eight() {
    let a = Antecedent::Exif(ExifPrehension { fields: vec![] });
    assert_eq!(a.token_weight(), 8);
}

#[test]
fn tests_audio_token_weight_is_bytes_over_four() {
    let a = Antecedent::Audio(AudioPrehension {
        transcript: "word".repeat(100),
        duration_bits: 5.0f32.to_bits(),
    });
    assert_eq!(a.token_weight(), 100);
}

#[test]
fn text_weight_rounds_up_and_counts_bytes() {
    let a = Antecedent::Ocr(OcrPrehension { text: "abcde".into(), confidence_bits: 0 });
    assert_eq!(a.token_weight(), 2);
    let empty = Antecedent::Audio(AudioPrehension { transcript: String::new(), duration_bits: 0 });
    assert_eq!(empty.token_weight(), 0);
    // "é" is two bytes in UTF-8: three of them are six bytes, two tokens.
    let accented = Antecedent::Ocr(OcrPrehension { text: "ééé".into(), confidence_bits: 0 });
    assert_eq!(accented.token_weight(), 2);
}

#[test]
fn exif_weight_is_count_times_average_chars_over_four() {
    let field = ("k".repeat(20), "v".repeat(20));
    let fields = vec![field.clone(), field.clone(), field.clone()];
    // 3 fields × 40 characters / 4 = 30.
    let a = Antecedent::Exif(ExifPrehension { fields });
    assert_eq!(a.token_weight(), 30);
    let small = Antecedent::Exif(ExifPrehension {
        fields: vec![("a".into(), "b".into()), ("c".into(), "dddd".into())],
    });
    // 7 characters / 4 = 1 is below the floor.
    assert_eq!(small.token_weight(), 8);
}

#[test]
fn exif_weight_of_ten_eight_character_fields_is_twenty() {
    let e = ExifInput { fields: vec![("abcd".to_string(), "efgh".to_string()); 10] };
    assert_eq!(Input::Exif(e).token_weight(), 20);
}

#[test]
fn exif_weight_counts_characters_not_bytes() {
    // Nine two-byte characters per field, four fields: 36 characters, 9 tokens.
    let field = ("é".repeat(4), "ü".repeat(5));
    let e = ExifPrehension { fields: vec![field; 4] };
    assert_eq!(Antecedent::Exif(e).token_weight(), 9);
    // 33 characters round down to 8.
    let e = ExifInput { fields: vec![("x".repeat(30), "yyy".to_string())] };
    assert_eq!(Input::Exif(e).token_weight(), 8);
    let e = ExifInput { fields: vec![("x".repeat(33), "yyy".to_string())] };
    assert_eq!(Input::Exif(e).token_weight(), 9);
}

#[test]
fn weights_are_computable_for_ordinary_inputs() {
    let inputs = vec![
        Input::Exif(ExifInput { fields: vec![("camera".into(), "X100".into())] }),
        Input::Ocr(OcrInput { text: "hi".into(), confidence_bits: 0 }),
    ];
    assert!(lux_aurumque::pipeline::weights_computable(&inputs));
    assert!(lux_aurumque::pipeline::weights_computable(&[]));
    let ants = vec![Antecedent::Exif(ExifPrehension { fields: vec![] })];
    assert!(lux_aurumque::vision::weights_computable(&ants));
}
