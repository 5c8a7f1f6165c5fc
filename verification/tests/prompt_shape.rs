use lux_aurumque::shape::PromptShape;

const ALL_LABELS: &[&str] = &["json", "prose", "bare", "fly", "reverence", "lux"];

#[test]
fn from_arg_round_trips_all_variants() {
    for label in ALL_LABELS {
        let shape = PromptShape::from_arg(label)
            .unwrap_or_else(|e| panic!("from_arg({label}): {e}"));
        assert_eq!(shape.label(), *label);
    }
}

#[test]
fn from_arg_rejects_unknown() {
    assert!(PromptShape::from_arg("unknown_xyz").is_err());
}

#[test]
fn text_is_nonempty_for_all_variants() {
    for label in ALL_LABELS {
        let shape = PromptShape::from_arg(label).unwrap();
        assert!(!shape.text().is_empty(), "shape {label} has empty text()");
    }
}

#[test]
fn json_shaped_variants_have_glossary() {
    for label in &["json", "fly", "reverence", "lux"] {
        let shape = PromptShape::from_arg(label).unwrap();
        assert!(shape.glossary().is_some(), "shape {label} should have a glossary");
    }
}

#[test]
fn prose_and_bare_have_no_glossary() {
    for label in &["prose", "bare"] {
        let shape = PromptShape::from_arg(label).unwrap();
        assert!(shape.glossary().is_none(), "shape {label} should not have a glossary");
    }
}

#[test]
fn prose_and_bare_have_no_json_syntax() {
    for label in &["prose", "bare"] {
        let shape = PromptShape::from_arg(label).unwrap();
        let text = shape.text();
        assert!(!text.contains('{'), "prose/bare shape {label} contains '{{'");
    }
}

#[test]
fn fly_text_references_owl() {
    let shape = PromptShape::from_arg("fly").unwrap();
    assert!(shape.text().to_ascii_lowercase().contains("owl"));
}

#[test]
fn lux_text_references_prism_or_spectral() {
    let shape = PromptShape::from_arg("lux").unwrap();
    let text = shape.text().to_ascii_lowercase();
    assert!(text.contains("prism") || text.contains("spectral"));
}

// The same scenarios, stated once more for the process-layer presets.

#[test]
fn tests_from_arg_round_trips_all_variants() {
    for label in ALL_LABELS {
        let shape = PromptShape::from_arg(label)
            .unwrap_or_else(|e| panic!("from_arg({label}): {e}"));
        assert_eq!(shape.label(), *label);
    }
}

#[test]
fn tests_from_arg_rejects_unknown() {
    assert!(PromptShape::from_arg("unknown_xyz").is_err());
}

#[test]
fn tests_text_is_nonempty_for_all_variants() {
    for label in ALL_LABELS {
        let shape = PromptShape::from_arg(label).unwrap();
        assert!(!shape.text().is_empty(), "shape {label} has empty text()");
    }
}

#[test]
fn tests_json_shaped_variants_have_glossary() {
    for label in &["json", "fly", "reverence", "lux"] {
        let shape = PromptShape::from_arg(label).unwrap();
        assert!(shape.glossary().is_some(), "shape {label} should have a glossary");
    }
}

#[test]
fn tests_prose_and_bare_have_no_glossary() {
    for label in &["prose", "bare"] {
        let shape = PromptShape::from_arg(label).unwrap();
        assert!(shape.glossary().is_none(), "shape {label} should not have a glossary");
    }
}

#[test]
fn json_shapes_contain_no_raw_json_syntax_after_label() {
    for label in &["prose", "bare"] {
        let shape = PromptShape::from_arg(label).unwrap();
        let text = shape.text();
        assert!(!text.contains('{'), "prose/bare shape {label} contains '{{': {text:.80}...");
    }
}

#[test]
fn tests_fly_text_references_owl() {
    let shape = PromptShape::from_arg("fly").unwrap();
    assert!(shape.text().to_ascii_lowercase().contains("owl"));
}

#[test]
fn tests_lux_text_references_prism_or_spectral() {
    let shape = PromptShape::from_arg("lux").unwrap();
    let text = shape.text().to_ascii_lowercase();
    assert!(text.contains("prism") || text.contains("spectral"));
}

#[test]
fn unknown_label_message_names_the_value_and_the_choices() {
    let err = PromptShape::from_arg("owl").unwrap_err();
    assert_eq!(
        err,
        "--prompt-shape: unknown value 'owl', expected json|prose|bare|fly|reverence|lux"
    );
}

#[test]
fn label_parses_back_to_each_preset() {
    for shape in [
        PromptShape::Json,
        PromptShape::Prose,
        PromptShape::Bare,
        PromptShape::Fly,
        PromptShape::Reverence,
        PromptShape::Lux,
    ] {
        assert_eq!(PromptShape::from_arg(shape.label()).unwrap(), shape);
    }
}

#[test]
fn labels_are_case_sensitive() {
    assert!(PromptShape::from_arg("JSON").is_err());
    assert!(PromptShape::from_arg("").is_err());
}
