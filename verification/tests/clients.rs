use std::sync::Arc;

use lux_aurumque::anthropic::{
    image_source, nexus_prompt, render_prompt, reply_caption, reply_scene, reply_text,
    required_image,
};
use lux_aurumque::pipeline::{AudioInput, ExifInput, ImageInput, Input, OcrInput, VisionError};
use lux_aurumque::runway::{
    character_performance_inputs, image_to_video_inputs, poll_step, truncate_prompt, wait_step,
    video_byte_cap, CharacterPerformanceConfig, PollStep, DEFAULT_VIDEO_MAX_BYTES,
};

fn image(w: u32, tokens: u32) -> ImageInput {
    ImageInput {
        raw_bytes: Arc::new(vec![1, 2, 3]),
        media_type: "image/png",
        width: w,
        height: w,
        estimated_tokens: tokens,
    }
}

#[test]
fn prompt_within_the_limit_is_kept() {
    assert_eq!(truncate_prompt("a short prompt", 1000), "a short prompt");
    assert_eq!(truncate_prompt("exactly", 7), "exactly");
}

#[test]
fn long_prompt_is_cut_at_a_word_boundary() {
    // Ten characters allowed: nine kept ("the quick"), cut back to before
    // the last whitespace among them, then the ellipsis.
    assert_eq!(truncate_prompt("the quick brown fox", 10), "the…");
    assert_eq!(truncate_prompt("the quick brown fox", 11), "the quick…");
    assert_eq!(truncate_prompt("abcdefghijklmnop", 5), "abcd…");
    assert_eq!(truncate_prompt("abc", 0), "…");
    let long = "word ".repeat(300);
    let cut = truncate_prompt(&long, 1000);
    assert!(cut.chars().count() <= 1000);
    assert!(cut.ends_with('…'));
    assert!(long.starts_with(cut.trim_end_matches('…')));
}

#[test]
fn video_cap_reads_the_setting_or_defaults() {
    assert_eq!(video_byte_cap(None), DEFAULT_VIDEO_MAX_BYTES);
    assert_eq!(DEFAULT_VIDEO_MAX_BYTES, 15 * 1024 * 1024);
    assert_eq!(video_byte_cap(Some("42")), 42);
    assert_eq!(video_byte_cap(Some("+42")), 42);
    assert_eq!(video_byte_cap(Some("-1")), DEFAULT_VIDEO_MAX_BYTES);
    assert_eq!(video_byte_cap(Some("")), DEFAULT_VIDEO_MAX_BYTES);
    assert_eq!(video_byte_cap(Some("12 MB")), DEFAULT_VIDEO_MAX_BYTES);
    assert_eq!(video_byte_cap(Some("99999999999999999999999")), DEFAULT_VIDEO_MAX_BYTES);
    assert_eq!(video_byte_cap(Some("+")), DEFAULT_VIDEO_MAX_BYTES);
    assert_eq!(video_byte_cap(Some("007")), 7);
    assert_eq!(video_byte_cap(Some(&usize::MAX.to_string())), usize::MAX);
}

#[test]
fn poll_reads_terminal_and_running_states() {
    assert!(matches!(poll_step("t1", Some("SUCCEEDED"), None), PollStep::Succeeded));
    match poll_step("t1", Some("FAILED"), Some("moderation")) {
        PollStep::Failed(m) => assert_eq!(m, "task t1: FAILED (moderation)"),
        _ => panic!("expected Failed"),
    }
    match poll_step("t2", Some("CANCELLED"), None) {
        PollStep::Failed(m) => assert_eq!(m, "task t2: CANCELLED ()"),
        _ => panic!("expected Failed"),
    }
    assert!(matches!(poll_step("t3", Some("RUNNING"), None), PollStep::Pending));
    assert!(matches!(poll_step("t3", Some("succeeded"), None), PollStep::Pending));
    assert!(matches!(poll_step("t3", None, None), PollStep::Pending));
}

#[test]
fn image_to_video_inlines_image_and_cuts_prompt() {
    let (text, uri) = image_to_video_inputs("orbit", b"abc", "image/png").unwrap();
    assert_eq!(text, "orbit");
    assert_eq!(uri, "data:image/png;base64,YWJj");
}

#[test]
fn oversized_reference_video_is_refused() {
    let video = vec![0u8; 10];
    let cfg = CharacterPerformanceConfig {
        model: "act_two",
        character_image_bytes: b"abc",
        character_media_type: "image/png",
        reference_video_bytes: &video,
        reference_media_type: "video/mp4",
        ratio: "1280:720",
        body_control: true,
        expression_intensity: 3,
        public_figure_threshold: "low",
    };
    match character_performance_inputs(&cfg, 9) {
        Err(VisionError::OversizedInput { kind, bytes, cap }) => {
            assert_eq!((kind, bytes, cap), ("reference_video", 10, 9));
        }
        other => panic!("expected OversizedInput, got {other:?}"),
    }
    let (character, reference) = character_performance_inputs(&cfg, 10).unwrap();
    assert_eq!(character, "data:image/png;base64,YWJj");
    assert_eq!(reference, "data:video/mp4;base64,AAAAAAAAAAAAAA==");
}

#[test]
fn nexus_prompt_embeds_glossary_then_nexus() {
    let p = nexus_prompt("{\"society\":[]}", "- sphere: orb");
    assert!(p.starts_with("Translate this structured scene description into a single-paragraph video-generation prompt"));
    assert!(p.contains("RELATIONAL CONTEXT (treat as ground-truth disambiguation):\n- sphere: orb\n\nNEXUS (the scene to render):\n{\"society\":[]}\n\nOutput the caption only"));
    assert!(p.ends_with("starting immediately with the scene description."));
}

#[test]
fn synthesis_prompt_lists_every_auxiliary_input() {
    let inputs = vec![
        Input::Image(image(8, 1)),
        Input::Ocr(OcrInput { text: "EXIT".into(), confidence_bits: 0.5f32.to_bits() }),
        Input::Exif(ExifInput { fields: vec![("camera".into(), "X100".into())] }),
        Input::Audio(AudioInput { transcript: "hum".into(), duration_bits: 2.0f32.to_bits() }),
    ];
    let scalars = vec![String::new(), "0.50".to_string(), String::new(), "2.0".to_string()];
    let p = render_prompt(&inputs, &scalars);
    let header = "You receive an image alongside auxiliary inputs (OCR text, EXIF metadata, optional audio transcript). Synthesize one concise scene description that incorporates all sources. Note any tensions between them.\n\n";
    assert_eq!(
        p,
        format!("{header}OCR (confidence 0.50):\nEXIT\n\nEXIF:\n  camera = X100\n\nAudio transcript (2.0s):\nhum\n\n")
    );
}

#[test]
fn synthesis_needs_inputs_and_an_image() {
    assert!(matches!(required_image(&[]), Err(VisionError::NoInputs)));
    let no_image = vec![Input::Exif(ExifInput { fields: vec![] })];
    match required_image(&no_image) {
        Err(VisionError::MissingInput { kind }) => assert_eq!(kind, "image"),
        _ => panic!("expected MissingInput"),
    }
    let inputs = vec![
        Input::Exif(ExifInput { fields: vec![] }),
        Input::Image(image(4, 11)),
        Input::Image(image(5, 12)),
    ];
    assert_eq!(required_image(&inputs).unwrap().estimated_tokens, 11);
}

#[test]
fn inline_image_source_is_base64() {
    let (data, mime) = image_source(b"hello", "image/gif").unwrap();
    assert_eq!(data, "aGVsbG8=");
    assert_eq!(mime, "image/gif");
}

#[test]
fn reply_keeps_text_blocks_only() {
    let blocks = vec![
        ("text".to_string(), Some("  first".to_string())),
        ("tool_use".to_string(), Some("ignored".to_string())),
        ("text".to_string(), None),
        ("text".to_string(), Some("second \n".to_string())),
    ];
    assert_eq!(reply_caption(&blocks), "  first\nsecond \n");
    assert_eq!(reply_text(&blocks), "first\nsecond");
    assert_eq!(reply_text(&vec![]), "");
}

#[test]
fn reply_scene_prefers_reported_usage() {
    let inputs = vec![Input::Image(image(4, 11)), Input::Exif(ExifInput { fields: vec![] })];
    let blocks = vec![("text".to_string(), Some("a gilded room".to_string()))];
    let reported = reply_scene(&blocks, Some((100, 23)), &inputs);
    assert_eq!(reported.caption, "a gilded room");
    assert_eq!(reported.contributing, 2);
    assert_eq!(reported.total_tokens, 123);
    let estimated = reply_scene(&blocks, None, &inputs);
    assert_eq!(estimated.total_tokens, 11 + 8);
    let saturated = reply_scene(&blocks, Some((u32::MAX, 5)), &inputs);
    assert_eq!(saturated.total_tokens, u32::MAX);
}

#[test]
fn truncated_prompts_never_exceed_the_limit() {
    let text = "alpha beta gamma delta epsilon zeta eta theta iota kappa lambda";
    let n = text.chars().count();
    for max in 0..=n + 2 {
        let cut = truncate_prompt(text, max);
        let len = cut.chars().count();
        if n <= max {
            assert_eq!(cut, text);
        } else {
            assert!(len <= max.max(1), "max {max}: {cut:?}");
            assert!(cut.ends_with('…'));
            assert!(text.starts_with(cut.trim_end_matches('…')));
        }
    }
}

#[test]
fn waiting_times_out_after_ten_minutes() {
    match wait_step("t9", 600_000_000_001, Some("SUCCEEDED"), None) {
        PollStep::TimedOut(m) => assert_eq!(m, "task t9: timeout after 600s"),
        _ => panic!("expected a timeout"),
    }
    assert!(matches!(wait_step("t9", 600_000_000_000, Some("SUCCEEDED"), None), PollStep::Succeeded));
    assert!(matches!(wait_step("t9", 0, None, None), PollStep::Pending));
    match wait_step("t9", 5, Some("FAILED"), Some("quota")) {
        PollStep::Failed(m) => assert_eq!(m, "task t9: FAILED (quota)"),
        _ => panic!("expected a failure"),
    }
}
