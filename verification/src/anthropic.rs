//! The decisions of the Anthropic vision client: the prompt that asks for a
//! scene description, the prompt that translates a JSON nexus into caption
//! prose, the inline image payload, and the reading of a reply.

use vstd::prelude::*;
use vstd::string::*;

use crate::media::{base64, base64_encode, capped_image};
use crate::pipeline::{
    all_weights_fit, cap_error, cap_image, ImageInput, Input, Scene, VisionError, weight_sum,
};
use crate::shape::occurs_in;
use crate::text::{join, joined, str_equal, trim, trimmed, views};

verus! {

/// Byte cap of an inline image: 5 MiB.
pub const IMAGE_LIMIT: usize = 5242880;

/// Longest side, in pixels, of an image re-encoded to fit `IMAGE_LIMIT`.
pub const IMAGE_MAX_SIDE: u32 = 1568;

/// The translation request: the fixed instructions, the relational
/// glossary, the nexus, and the closing instruction.
pub open spec fn nexus_prompt_text(nexus_json: Seq<char>, relations: Seq<char>) -> Seq<char> {
    "Translate this structured scene description into a single-paragraph video-generation prompt for a text-conditioned video diffusion model.\n\nREQUIREMENTS:\n- Strip ALL JSON syntax: no braces, no quoted field names, no `prehends:[]`. The output must look like natural caption prose, not code.\n- Preserve every physical commitment and temporal causality from the nexus.\n- Use continuous motion verbs and explicit cadence (e.g. \"swings once per second\").\n- Use cinematographic vocabulary for camera moves.\n- Output a SINGLE PARAGRAPH of 600-900 characters. No preamble. No JSON. No bullet lists.\n\nRELATIONAL CONTEXT (treat as ground-truth disambiguation):\n"@ + relations + "\n\nNEXUS (the scene to render):\n"@ + nexus_json + "\n\nOutput the caption only, starting immediately with the scene description."@
}

/// Build the prompt that asks for a JSON nexus and its relational glossary
/// to be translated into a single paragraph of caption prose.
pub fn nexus_prompt(nexus_json: &str, relations: &str) -> (r: String)
    ensures
        r@ == nexus_prompt_text(nexus_json@, relations@),
{
    let mut p = String::from_str("Translate this structured scene description into a single-paragraph video-generation prompt for a text-conditioned video diffusion model.\n\nREQUIREMENTS:\n- Strip ALL JSON syntax: no braces, no quoted field names, no `prehends:[]`. The output must look like natural caption prose, not code.\n- Preserve every physical commitment and temporal causality from the nexus.\n- Use continuous motion verbs and explicit cadence (e.g. \"swings once per second\").\n- Use cinematographic vocabulary for camera moves.\n- Output a SINGLE PARAGRAPH of 600-900 characters. No preamble. No JSON. No bullet lists.\n\nRELATIONAL CONTEXT (treat as ground-truth disambiguation):\n");
    p.append(relations);
    p.append("\n\nNEXUS (the scene to render):\n");
    p.append(nexus_json);
    p.append("\n\nOutput the caption only, starting immediately with the scene description.");
    p
}

/// The lines `  {key} = {value}` of the first `n` fields.
pub open spec fn exif_lines(fields: Seq<(String, String)>, n: int) -> Seq<char>
    decreases n,
{
    if n <= 0 {
        Seq::empty()
    } else {
        exif_lines(fields, n - 1) + "  "@ + fields[n - 1].0@ + " = "@ + fields[n - 1].1@ + "\n"@
    }
}

/// The prompt section of one input, given the text of its floating-point
/// reading: nothing for the image itself (it travels separately), the OCR
/// text with its confidence, the metadata as indented `key = value` lines,
/// the audio transcript with its duration.
pub open spec fn prompt_section(input: Input, scalar: Seq<char>) -> Seq<char> {
    match input {
        Input::Image(_) => Seq::empty(),
        Input::Ocr(o) => "OCR (confidence "@ + scalar + "):\n"@ + o.text@ + "\n\n"@,
        Input::Exif(e) => "EXIF:\n"@ + exif_lines(e.fields@, e.fields@.len() as int) + "\n"@,
        Input::Audio(a) => "Audio transcript ("@ + scalar + "s):\n"@ + a.transcript@ + "\n\n"@,
    }
}

/// The sections of the first `n` inputs, in order.
pub open spec fn prompt_sections(inputs: Seq<Input>, scalars: Seq<String>, n: int) -> Seq<char>
    decreases n,
{
    if n <= 0 {
        Seq::empty()
    } else {
        prompt_sections(inputs, scalars, n - 1) + prompt_section(inputs[n - 1], scalars[n - 1]@)
    }
}

/// The synthesis prompt: the fixed instructions, then every input's section.
pub open spec fn synthesis_prompt(inputs: Seq<Input>, scalars: Seq<String>) -> Seq<char> {
    "You receive an image alongside auxiliary inputs (OCR text, EXIF metadata, optional audio transcript). Synthesize one concise scene description that incorporates all sources. Note any tensions between them.\n\n"@ + prompt_sections(inputs, scalars, inputs.len() as int)
}

fn exif_section(fields: &Vec<(String, String)>, p: &mut String)
    ensures
        final(p)@ == old(p)@ + "EXIF:\n"@ + exif_lines(fields@, fields@.len() as int) + "\n"@,
{
    let ghost start = p@ + "EXIF:\n"@;
    p.append("EXIF:\n");
    let mut i: usize = 0;
    while i < fields.len()
        invariant
            i <= fields@.len(),
            p@ == start + exif_lines(fields@, i as int),
        decreases fields@.len() - i,
    {
        p.append("  ");
        p.append(fields[i].0.as_str());
        p.append(" = ");
        p.append(fields[i].1.as_str());
        p.append("\n");
        i = i + 1;
    }
    p.append("\n");
}

/// Build the synthesis prompt. `scalars[i]` is the rendered floating-point
/// reading of `inputs[i]`: its confidence to two places for OCR text, its
/// duration to one place for audio, and ignored otherwise.
pub fn render_prompt(inputs: &[Input], scalars: &Vec<String>) -> (r: String)
    requires
        scalars@.len() == inputs@.len(),
    ensures
        r@ == synthesis_prompt(inputs@, scalars@),
{
    let mut p = String::from_str("You receive an image alongside auxiliary inputs (OCR text, EXIF metadata, optional audio transcript). Synthesize one concise scene description that incorporates all sources. Note any tensions between them.\n\n");
    let mut i: usize = 0;
    while i < inputs.len()
        invariant
            i <= inputs@.len(),
            scalars@.len() == inputs@.len(),
            p@ == "You receive an image alongside auxiliary inputs (OCR text, EXIF metadata, optional audio transcript). Synthesize one concise scene description that incorporates all sources. Note any tensions between them.\n\n"@ + prompt_sections(inputs@, scalars@, i as int),
        decreases inputs@.len() - i,
    {
        match &inputs[i] {
            Input::Image(_) => {},
            Input::Ocr(o) => {
                p.append("OCR (confidence ");
                p.append(scalars[i].as_str());
                p.append("):\n");
                p.append(o.text.as_str());
                p.append("\n\n");
            },
            Input::Exif(e) => {
                exif_section(&e.fields, &mut p);
            },
            Input::Audio(a) => {
                p.append("Audio transcript (");
                p.append(scalars[i].as_str());
                p.append("s):\n");
                p.append(a.transcript.as_str());
                p.append("\n\n");
            },
        }
        i = i + 1;
    }
    p
}

/// The index of the first image among the inputs, if any.
pub open spec fn first_image_index(inputs: Seq<Input>) -> Option<int> {
    if exists|i: int| 0 <= i < inputs.len() && inputs[i] is Image {
        Some(
            choose|i: int|
                0 <= i < inputs.len() && inputs[i] is Image && forall|j: int|
                    0 <= j < i ==> !(inputs[j] is Image),
        )
    } else {
        None
    }
}

/// What a synthesis needs before it can call the model: at least one
/// input, and an image among them. Returns the first image.
pub fn required_image(inputs: &[Input]) -> (r: Result<&ImageInput, VisionError>)
    ensures
        inputs@.len() == 0 ==> (r matches Err(e) && e is NoInputs),
        inputs@.len() > 0 ==> match r {
            Ok(img) => exists|i: int|
                0 <= i < inputs@.len() && inputs@[i] == Input::Image(*img) && forall|j: int|
                    0 <= j < i ==> !(inputs@[j] is Image),
            Err(e) => (e matches VisionError::MissingInput { kind } && kind@ == "image"@)
                && forall|j: int| 0 <= j < inputs@.len() ==> !(inputs@[j] is Image),
        },
{
    if inputs.len() == 0 {
        return Err(VisionError::NoInputs);
    }
    let mut i: usize = 0;
    while i < inputs.len()
        invariant
            i <= inputs@.len(),
            forall|j: int| 0 <= j < i ==> !(inputs@[j] is Image),
        decreases inputs@.len() - i,
    {
        match &inputs[i] {
            Input::Image(img) => {
                return Ok(img);
            },
            _ => {},
        }
        i = i + 1;
    }
    proof {
        reveal_strlit("image");
    }
    Err(VisionError::MissingInput { kind: "image" })
}

/// The inline image payload: the bytes capped at `IMAGE_LIMIT`
/// (re-encoded to `IMAGE_MAX_SIDE` when over) and base64-encoded, with the
/// MIME type that goes with them.
pub fn image_source(bytes: &[u8], media_type: &'static str) -> (r: Result<
    (String, &'static str),
    VisionError,
>)
    ensures
        match capped_image(bytes@, media_type@, IMAGE_LIMIT, IMAGE_MAX_SIDE) {
            Some((b, m)) => r matches Ok((data, mt)) && data@ == base64(b) && mt@ == m,
            None => r matches Err(e) && cap_error(bytes@, IMAGE_LIMIT, IMAGE_MAX_SIDE, "anthropic", e),
        },
        bytes@.len() <= IMAGE_LIMIT ==> (r matches Ok((_, m)) && m == media_type),
{
    proof {
        reveal_strlit("anthropic");
    }
    let (payload, mime) = match cap_image(bytes, media_type, IMAGE_LIMIT, IMAGE_MAX_SIDE, "anthropic") {
        Ok(c) => c,
        Err(e) => return Err(e),
    };
    let data = base64_encode(payload.as_slice());
    assert(data@ == base64(payload.bytes()));
    Ok((data, mime))
}

/// The texts of the reply blocks of kind `"text"` that carry a text.
pub open spec fn reply_texts(blocks: Seq<(String, Option<String>)>) -> Seq<Seq<char>>
    decreases blocks.len(),
{
    if blocks.len() == 0 {
        Seq::empty()
    } else {
        let rest = reply_texts(blocks.drop_last());
        let b = blocks.last();
        if b.0@ == "text"@ && b.1 is Some {
            rest.push(b.1->0@)
        } else {
            rest
        }
    }
}

/// The caption of a reply: its text blocks joined by newlines. Each block
/// is `(kind, text)`.
pub fn reply_caption(blocks: &Vec<(String, Option<String>)>) -> (r: String)
    ensures
        r@ == joined(reply_texts(blocks@), "\n"@),
{
    let mut texts: Vec<String> = Vec::new();
    let mut i: usize = 0;
    while i < blocks.len()
        invariant
            i <= blocks@.len(),
            views(texts@) == reply_texts(blocks@.take(i as int)),
        decreases blocks@.len() - i,
    {
        proof {
            assert(blocks@.take(i + 1).drop_last() =~= blocks@.take(i as int));
        }
        let b = &blocks[i];
        if str_equal(b.0.as_str(), "text") {
            match &b.1 {
                Some(t) => {
                    let ghost before = texts@;
                    texts.push(t.clone());
                    proof {
                        assert(views(texts@) =~= views(before).push(t@));
                    }
                },
                None => {},
            }
        }
        i = i + 1;
    }
    proof {
        assert(blocks@.take(blocks@.len() as int) =~= blocks@);
    }
    join(&texts, "\n")
}

/// The text of a reply, as a plain text answer: the caption with leading
/// and trailing whitespace removed.
pub fn reply_text(blocks: &Vec<(String, Option<String>)>) -> (r: String)
    ensures
        r@ == trimmed(joined(reply_texts(blocks@), "\n"@)),
{
    let caption = reply_caption(blocks);
    trim(caption.as_str())
}

/// The token cost of a synthesis: the usage the model reports (input plus
/// output tokens, saturating), or else the sum of the inputs' weights.
pub open spec fn reported_tokens(usage: Option<(u32, u32)>, inputs: Seq<Input>) -> nat {
    match usage {
        Some((i, o)) => if i + o > u32::MAX {
            u32::MAX as nat
        } else {
            (i + o) as nat
        },
        None => weight_sum(inputs, inputs.len() as int),
    }
}

/// The scene a reply describes: its caption, the number of inputs, and
/// the reported (or estimated) token cost. Without a usage report the
/// inputs' weights must sum within `u32`.
pub fn reply_scene(
    blocks: &Vec<(String, Option<String>)>,
    usage: Option<(u32, u32)>,
    inputs: &[Input],
) -> (r: Scene)
    requires
        usage is None ==> all_weights_fit(inputs@) && weight_sum(inputs@, inputs@.len() as int)
            <= u32::MAX,
    ensures
        r.caption@ == joined(reply_texts(blocks@), "\n"@),
        r.contributing == inputs@.len(),
        r.total_tokens == reported_tokens(usage, inputs@),
{
    let caption = reply_caption(blocks);
    let total_tokens: u32 = match usage {
        Some((i, o)) => i.saturating_add(o),
        None => {
            let mut total: u32 = 0;
            let mut k: usize = 0;
            while k < inputs.len()
                invariant
                    k <= inputs@.len(),
                    all_weights_fit(inputs@),
                    weight_sum(inputs@, inputs@.len() as int) <= u32::MAX,
                    total == weight_sum(inputs@, k as int),
                decreases inputs@.len() - k,
            {
                proof {
                    crate::pipeline::lemma_weight_sum_monotone(inputs@, k + 1, inputs@.len() as int);
                }
                total = total + inputs[k].token_weight();
                k = k + 1;
            }
            total
        },
    };
    Scene { caption, contributing: inputs.len(), total_tokens }
}


/// The metadata lines of the first `n` fields run field by field, in the
/// record's order: those of the first `i` fields come first, then the
/// line `  {key} = {value}` of field `i`, and nothing else is added.
pub proof fn lemma_exif_lines_in_order(fields: Seq<(String, String)>, i: int, n: int)
    requires
        0 <= i < n <= fields.len(),
    ensures
        exif_lines(fields, 0).len() == 0,
        exif_lines(fields, n).subrange(0, exif_lines(fields, i).len() as int) == exif_lines(
            fields,
            i,
        ),
        exif_lines(fields, n).subrange(
            exif_lines(fields, i).len() as int,
            exif_lines(fields, i).len() + ("  "@ + fields[i].0@ + " = "@ + fields[i].1@
                + "\n"@).len() as int,
        ) == "  "@ + fields[i].0@ + " = "@ + fields[i].1@ + "\n"@,
        exif_lines(fields, i + 1).len() == exif_lines(fields, i).len() + ("  "@ + fields[i].0@
            + " = "@ + fields[i].1@ + "\n"@).len(),
        exif_lines(fields, i + 1).len() <= exif_lines(fields, n).len(),
    decreases n - i,
{
    let line = "  "@ + fields[i].0@ + " = "@ + fields[i].1@ + "\n"@;
    let a = exif_lines(fields, i).len() as int;
    lemma_exif_lines_grow(fields, i + 1, n);
    if n == i + 1 {
        assert(exif_lines(fields, n).subrange(0, a) =~= exif_lines(fields, i));
        assert(exif_lines(fields, n).subrange(a, a + line.len()) =~= line);
    } else {
        lemma_exif_lines_in_order(fields, i, n - 1);
        let prev = exif_lines(fields, n - 1);
        let whole = exif_lines(fields, n);
        assert(a + line.len() <= prev.len()) by {
            lemma_exif_lines_in_order(fields, i, i + 1);
            lemma_exif_lines_grow(fields, i + 1, n - 1);
        }
        assert(whole.subrange(0, a) =~= prev.subrange(0, a));
        assert(whole.subrange(a, a + line.len()) =~= prev.subrange(a, a + line.len()));
    }
}

proof fn lemma_exif_lines_grow(fields: Seq<(String, String)>, a: int, b: int)
    requires
        0 <= a <= b,
    ensures
        exif_lines(fields, a).len() <= exif_lines(fields, b).len(),
    decreases b - a,
{
    if a < b {
        lemma_exif_lines_grow(fields, a, b - 1);
    }
}

proof fn lemma_sections_grow(inputs: Seq<Input>, scalars: Seq<String>, a: int, b: int)
    requires
        0 <= a <= b,
    ensures
        prompt_sections(inputs, scalars, a).len() <= prompt_sections(inputs, scalars, b).len(),
        prompt_sections(inputs, scalars, b).subrange(0, prompt_sections(inputs, scalars, a).len() as int)
            == prompt_sections(inputs, scalars, a),
    decreases b - a,
{
    if a == b {
        assert(prompt_sections(inputs, scalars, b).subrange(0, prompt_sections(inputs, scalars, a).len() as int)
            =~= prompt_sections(inputs, scalars, a));
    } else {
        lemma_sections_grow(inputs, scalars, a, b - 1);
        let x = prompt_sections(inputs, scalars, a);
        let y = prompt_sections(inputs, scalars, b - 1);
        let z = prompt_sections(inputs, scalars, b);
        assert(z.subrange(0, x.len() as int) =~= y.subrange(0, x.len() as int));
    }
}

/// Every field of every metadata input reaches the synthesis prompt as its
/// own line `  {key} = {value}`.
pub proof fn lemma_prompt_lists_exif_fields(
    inputs: Seq<Input>,
    scalars: Seq<String>,
    k: int,
    j: int,
)
    requires
        0 <= k < inputs.len(),
        scalars.len() == inputs.len(),
    ensures
        inputs[k] matches Input::Exif(e) ==> (0 <= j < e.fields@.len() ==> occurs_in(
            "  "@ + e.fields@[j].0@ + " = "@ + e.fields@[j].1@ + "\n"@,
            synthesis_prompt(inputs, scalars),
        )),
{
    if let Input::Exif(e) = inputs[k] {
        if 0 <= j < e.fields@.len() {
            reveal_strlit("EXIF:\n");
            let f = e.fields@;
            let line = "  "@ + f[j].0@ + " = "@ + f[j].1@ + "\n"@;
            lemma_exif_lines_in_order(f, j, f.len() as int);
            let lines = exif_lines(f, f.len() as int);
            let aj = exif_lines(f, j).len() as int;
            let sec = prompt_section(inputs[k], scalars[k]@);
            assert(sec == "EXIF:\n"@ + lines + "\n"@);
            assert(sec.subrange(6 + aj, 6 + aj + line.len()) =~= lines.subrange(aj, aj + line.len()));
            lemma_sections_grow(inputs, scalars, k + 1, inputs.len() as int);
            let before = prompt_sections(inputs, scalars, k);
            let upto = prompt_sections(inputs, scalars, k + 1);
            let all = prompt_sections(inputs, scalars, inputs.len() as int);
            assert(upto == before + sec);
            let off = before.len() + 6 + aj;
            assert(all.subrange(off, off + line.len()) =~= upto.subrange(off, off + line.len()));
            assert(upto.subrange(off, off + line.len()) =~= sec.subrange(6 + aj, 6 + aj + line.len()));
            let head = "You receive an image alongside auxiliary inputs (OCR text, EXIF metadata, optional audio transcript). Synthesize one concise scene description that incorporates all sources. Note any tensions between them.\n\n"@;
            let p = synthesis_prompt(inputs, scalars);
            assert(p == head + all);
            let at = head.len() + off;
            assert(p.subrange(at, at + line.len()) =~= all.subrange(off, off + line.len()));
        }
    }
}
} // verus!
