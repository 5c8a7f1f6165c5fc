//! Core pipeline types: input modalities weighed in tokens, the
//! network-free mock synthesiser, and the append-only scene archive.
//!
//! Floating-point readings (an OCR confidence, an audio duration) are
//! carried as their IEEE-754 bit patterns: the library passes them through
//! unchanged and never computes with them.

use std::sync::Arc;

use vstd::prelude::*;
use vstd::string::*;

use crate::caption::{
    audio_caption_part, audio_part, caption, caption_text, exif_caption_part, exif_part,
    image_caption_part, image_part, ocr_caption_part, ocr_part,
};
use crate::media::{
    cap_payload, capped_image, decode_dimensions, image_decoding, jpeg_thumbnail, CapFailure,
    Payload,
};
use crate::process::BudgetError;
use crate::shape::occurs_in;
use crate::text::{decimal, lemma_joined_part_at, views};
use crate::tokens::{
    exif_tokens, exif_weight, exif_weight_computable, exif_weight_fits, text_tokens, text_weight,
    utf8_len,
};

pub use crate::text::truncate;

verus! {

/// Decoded image bytes packaged for inline upload to a vision model.
#[derive(Clone, Debug)]
pub struct ImageInput {
    /// The encoded bytes as received (PNG/JPEG/WebP/GIF), shared and never
    /// mutated.
    pub raw_bytes: Arc<Vec<u8>>,
    /// MIME type sent on the wire: `"image/png"`, `"image/jpeg"`,
    /// `"image/webp"` or `"image/gif"`.
    pub media_type: &'static str,
    /// Width in pixels of the decoded image.
    pub width: u32,
    /// Height in pixels of the decoded image.
    pub height: u32,
    /// Coarse token estimate, `ceil(w·h / 750)`, used for admission.
    pub estimated_tokens: u32,
}

/// OCR text recovered from an image, with a confidence hint.
#[derive(Clone, Debug)]
pub struct OcrInput {
    /// Recognised text, seen verbatim by the synthesiser.
    pub text: String,
    /// Bit pattern of the `f32` confidence in `[0.0, 1.0]`; `0` (that is,
    /// `0.0`) is the placeholder when no real confidence is available.
    pub confidence_bits: u32,
}

/// Image metadata fields (typically EXIF; any key/value pairs work).
#[derive(Clone, Debug)]
pub struct ExifInput {
    /// Ordered `(key, value)` pairs; the order is kept in rendered prompts.
    pub fields: Vec<(String, String)>,
}

/// Transcribed audio aligned with a visual scene.
#[derive(Clone, Debug)]
pub struct AudioInput {
    /// Plain-text transcript of the audio segment.
    pub transcript: String,
    /// Bit pattern of the `f32` duration of the source audio, in seconds.
    pub duration_bits: u32,
}

/// One heterogeneous input modality, packaged as a uniform enum.
#[derive(Clone, Debug)]
pub enum Input {
    Image(ImageInput),
    Ocr(OcrInput),
    Exif(ExifInput),
    Audio(AudioInput),
}

impl Input {
    /// The inputs whose token weight is computed without overflow: every
    /// input but a metadata record whose weight overflows `u32`.
    pub open spec fn weight_fits(&self) -> bool {
        match self {
            Input::Exif(e) => exif_weight_fits(e.fields@),
            _ => true,
        }
    }

    /// Token weight: the image's own estimate; `bytes / 4` rounded up for
    /// text; the field count times the average characters per field, divided
    /// by four, at least 8, for metadata.
    pub open spec fn spec_token_weight(&self) -> nat {
        match self {
            Input::Image(i) => i.estimated_tokens as nat,
            Input::Ocr(o) => text_tokens(utf8_len(o.text@)),
            Input::Exif(e) => exif_tokens(e.fields@),
            Input::Audio(a) => text_tokens(utf8_len(a.transcript@)),
        }
    }

    /// Token weight used by budget admission.
    pub fn token_weight(&self) -> (r: u32)
        requires
            self.weight_fits(),
        ensures
            r == self.spec_token_weight(),
    {
        match self {
            Input::Image(i) => i.estimated_tokens,
            Input::Ocr(o) => text_weight(o.text.as_str()),
            Input::Exif(e) => exif_weight(&e.fields),
            Input::Audio(a) => text_weight(a.transcript.as_str()),
        }
    }
}

/// Whether every input's weight can be computed.
pub open spec fn all_weights_fit(s: Seq<Input>) -> bool {
    forall|i: int| 0 <= i < s.len() ==> (#[trigger] s[i]).weight_fits()
}

/// Whether every input's token weight can be computed, so that the
/// pipeline's weight functions may be called on them.
pub fn weights_computable(inputs: &[Input]) -> (r: bool)
    ensures
        r == all_weights_fit(inputs@),
{
    let mut i: usize = 0;
    while i < inputs.len()
        invariant
            i <= inputs@.len(),
            forall|j: int| 0 <= j < i ==> (#[trigger] inputs@[j]).weight_fits(),
        decreases inputs@.len() - i,
    {
        let fits = match &inputs[i] {
            Input::Exif(e) => exif_weight_computable(&e.fields),
            _ => true,
        };
        if !fits {
            return false;
        }
        i = i + 1;
    }
    true
}

/// Sum of the token weights of the first `n` inputs.
pub open spec fn weight_sum(s: Seq<Input>, n: int) -> nat
    decreases n,
{
    if n <= 0 {
        0
    } else {
        weight_sum(s, n - 1) + s[n - 1].spec_token_weight()
    }
}

/// The running total of the first `n` weights, clamped at `u32::MAX` after
/// every addition (a `saturating_add` fold).
pub open spec fn saturating_sum(s: Seq<Input>, n: int) -> nat
    decreases n,
{
    if n <= 0 {
        0
    } else {
        let t = saturating_sum(s, n - 1) + s[n - 1].spec_token_weight();
        if t > u32::MAX {
            u32::MAX as nat
        } else {
            t
        }
    }
}

/// A saturating fold of the weights is their sum, capped at `u32::MAX`.
pub proof fn lemma_saturating_sum_is_capped_sum(s: Seq<Input>, n: int)
    requires
        0 <= n <= s.len(),
    ensures
        saturating_sum(s, n) == if weight_sum(s, n) > u32::MAX {
            u32::MAX as nat
        } else {
            weight_sum(s, n)
        },
    decreases n,
{
    if n > 0 {
        lemma_saturating_sum_is_capped_sum(s, n - 1);
    }
}

/// Total token weight, clamped at `u32::MAX`: the quantity admission checks
/// and the mock client reports.
pub fn saturating_token_total(inputs: &[Input]) -> (r: u32)
    requires
        all_weights_fit(inputs@),
    ensures
        r == saturating_sum(inputs@, inputs@.len() as int),
{
    let mut total: u32 = 0;
    let mut i: usize = 0;
    while i < inputs.len()
        invariant
            i <= inputs@.len(),
            all_weights_fit(inputs@),
            total == saturating_sum(inputs@, i as int),
        decreases inputs@.len() - i,
    {
        let w: u32 = inputs[i].token_weight();
        total = total.saturating_add(w);
        i = i + 1;
    }
    total
}

/// Aggregate token diameter: the exact sum of the weights, as a `u64`.
pub fn token_diameter(inputs: &[Input]) -> (r: u64)
    requires
        all_weights_fit(inputs@),
        weight_sum(inputs@, inputs@.len() as int) <= u64::MAX,
    ensures
        r == weight_sum(inputs@, inputs@.len() as int),
{
    let mut total: u64 = 0;
    let mut i: usize = 0;
    while i < inputs.len()
        invariant
            i <= inputs@.len(),
            all_weights_fit(inputs@),
            weight_sum(inputs@, inputs@.len() as int) <= u64::MAX,
            total == weight_sum(inputs@, i as int),
        decreases inputs@.len() - i,
    {
        proof {
            lemma_weight_sum_monotone(inputs@, i + 1, inputs@.len() as int);
        }
        let w: u32 = inputs[i].token_weight();
        total = total + w as u64;
        i = i + 1;
    }
    total
}

/// Summing more of the inputs never gives less.
pub proof fn lemma_weight_sum_monotone(s: Seq<Input>, a: int, b: int)
    requires
        0 <= a <= b,
    ensures
        weight_sum(s, a) <= weight_sum(s, b),
    decreases b - a,
{
    if a < b {
        lemma_weight_sum_monotone(s, a, b - 1);
    }
}

/// Adding an input leaves the weights of those before it as they were.
proof fn lemma_weight_sum_push(s: Seq<Input>, x: Input, n: int)
    requires
        0 <= n <= s.len(),
    ensures
        weight_sum(s.push(x), n) == weight_sum(s, n),
    decreases n,
{
    if n > 0 {
        lemma_weight_sum_push(s, x, n - 1);
        assert(s.push(x)[n - 1] == s[n - 1]);
    }
}

/// The diameter of no inputs is zero, and adding an input adds exactly its
/// token weight: the diameter of any inputs is the sum of their weights,
/// one by one.
pub proof fn lemma_diameter_adds_weights(s: Seq<Input>, x: Input)
    ensures
        weight_sum(Seq::<Input>::empty(), 0) == 0,
        weight_sum(s.push(x), s.len() + 1int) == weight_sum(s, s.len() as int)
            + x.spec_token_weight(),
{
    lemma_weight_sum_push(s, x, s.len() as int);
    assert(s.push(x)[s.len() as int] == x);
}

/// Whether the inputs' weights sum within `u32` (the test a caller makes
/// before estimating a cost in `u32`).
pub fn weight_sum_fits_u32(inputs: &[Input]) -> (r: bool)
    requires
        all_weights_fit(inputs@),
    ensures
        r == (weight_sum(inputs@, inputs@.len() as int) <= u32::MAX),
{
    let mut total: u64 = 0;
    let mut i: usize = 0;
    while i < inputs.len()
        invariant
            i <= inputs@.len(),
            all_weights_fit(inputs@),
            total == weight_sum(inputs@, i as int),
            total <= u32::MAX,
        decreases inputs@.len() - i,
    {
        total = total + inputs[i].token_weight() as u64;
        if total > 0xFFFF_FFFF {
            proof {
                lemma_weight_sum_monotone(inputs@, i + 1, inputs@.len() as int);
            }
            return false;
        }
        i = i + 1;
    }
    true
}

/// The output of one pipeline run: a single textual scene description
/// fused from all inputs.
#[derive(Clone, Debug)]
pub struct Scene {
    /// The synthesised description.
    pub caption: String,
    /// Number of inputs that participated in this synthesis.
    pub contributing: usize,
    /// Total token cost.
    pub total_tokens: u32,
}

/// Failure modes of the vision pipeline.
#[derive(Debug)]
#[non_exhaustive]
pub enum VisionError {
    /// Aggregate input diameter exceeded the spectral budget.
    Budget(BudgetError),
    /// The pipeline was run with no inputs.
    NoInputs,
    /// A required environment variable is not set.
    MissingEnv { var: &'static str },
    /// I/O failure reading an input from disk.
    Io(std::io::Error),
    /// Could not decode an input image; `label` names the call site.
    ImageDecode { label: &'static str, message: String },
    /// Could not re-encode a downscaled image while capping its size.
    ImageEncode { label: &'static str, message: String },
    /// A specific input kind was required but not supplied.
    MissingInput { kind: &'static str },
    /// An input payload exceeded its configured byte cap.
    OversizedInput { kind: &'static str, bytes: usize, cap: usize },
    /// Upstream HTTP or transport failure.
    Network(String),
}

impl From<BudgetError> for VisionError {
    fn from(e: BudgetError) -> (r: VisionError) {
        VisionError::Budget(e)
    }
}

impl vstd::std_specs::convert::FromSpecImpl<BudgetError> for VisionError {
    open spec fn obeys_from_spec() -> bool {
        true
    }

    open spec fn from_spec(e: BudgetError) -> VisionError {
        VisionError::Budget(e)
    }
}

impl From<std::io::Error> for VisionError {
    fn from(e: std::io::Error) -> (r: VisionError) {
        VisionError::Io(e)
    }
}

impl vstd::std_specs::convert::FromSpecImpl<std::io::Error> for VisionError {
    open spec fn obeys_from_spec() -> bool {
        true
    }

    open spec fn from_spec(e: std::io::Error) -> VisionError {
        VisionError::Io(e)
    }
}

/// The caption part the mock client writes for one input, given the
/// text of its floating-point reading (unused for images and metadata).
pub open spec fn input_part(a: Input, scalar: Seq<char>) -> Seq<char> {
    match a {
        Input::Image(i) => image_part(
            i.width as nat,
            i.height as nat,
            i.estimated_tokens as nat,
        ),
        Input::Ocr(o) => ocr_part(scalar, o.text@),
        Input::Exif(e) => exif_part(e.fields@.len()),
        Input::Audio(a) => audio_part(scalar, a.transcript@),
    }
}

/// The caption parts of all inputs, in order.
pub open spec fn input_parts(s: Seq<Input>, scalars: Seq<String>) -> Seq<Seq<char>> {
    Seq::new(s.len(), |i: int| input_part(s[i], scalars[i]@))
}

/// The mock client's caption for a non-empty list of inputs.
pub open spec fn mock_caption(s: Seq<Input>, scalars: Seq<String>) -> Seq<char> {
    caption_text("synthesised from"@, s.len(), "inputs"@, input_parts(s, scalars), " + "@)
}

/// Deterministic, network-free client: the reference implementation of a
/// synthesiser, which needs no API keys.
pub struct MockVisionClient;

impl MockVisionClient {
    /// Synthesise the inputs into one scene. `scalars[i]` is the rendered
    /// floating-point reading of `inputs[i]`: its confidence to two
    /// places for OCR text, its duration to one place for audio, and
    /// ignored otherwise.
    pub fn synthesize(&self, inputs: &[Input], scalars: &Vec<String>) -> (r: Result<
        Scene,
        VisionError,
    >)
        requires
            scalars@.len() == inputs@.len(),
            all_weights_fit(inputs@),
        ensures
            r is Err <==> inputs@.len() == 0,
            r matches Err(e) ==> e is NoInputs,
            r matches Ok(scene) ==> {
                &&& scene.contributing == inputs@.len()
                &&& scene.total_tokens == saturating_sum(
                    inputs@,
                    inputs@.len() as int,
                )
                &&& scene.caption@ == mock_caption(inputs@, scalars@)
            },
    {
        if inputs.len() == 0 {
            return Err(VisionError::NoInputs);
        }
        let mut parts: Vec<String> = Vec::new();
        let mut total_tokens: u32 = 0;
        let mut i: usize = 0;
        while i < inputs.len()
            invariant
                i <= inputs@.len(),
                scalars@.len() == inputs@.len(),
                all_weights_fit(inputs@),
                total_tokens == saturating_sum(inputs@, i as int),
                parts@.len() == i,
                forall|j: int|
                    0 <= j < i ==> (#[trigger] parts@[j])@ == input_part(
                        inputs@[j],
                        scalars@[j]@,
                    ),
            decreases inputs@.len() - i,
        {
            let a = &inputs[i];
            total_tokens = total_tokens.saturating_add(a.token_weight());
            let part = match a {
                Input::Image(img) => image_caption_part(
                    img.width,
                    img.height,
                    img.estimated_tokens,
                ),
                Input::Ocr(o) => ocr_caption_part(scalars[i].as_str(), o.text.as_str()),
                Input::Exif(e) => exif_caption_part(e.fields.len()),
                Input::Audio(au) => audio_caption_part(
                    scalars[i].as_str(),
                    au.transcript.as_str(),
                ),
            };
            parts.push(part);
            i = i + 1;
        }
        let text = caption("synthesised from", inputs.len(), "inputs", &parts, " + ");
        assert(views(parts@) =~= input_parts(inputs@, scalars@));
        Ok(Scene { caption: text, contributing: inputs.len(), total_tokens })
    }
}

/// Append-only history of synthesised scenes, useful when chaining
/// pipelines (each run's caption seeds the next).
pub struct SceneArchive {
    scenes: Vec<Scene>,
}

impl View for SceneArchive {
    type V = Seq<Scene>;

    closed spec fn view(&self) -> Seq<Scene> {
        self.scenes@
    }
}

impl SceneArchive {
    pub fn new() -> (r: SceneArchive)
        ensures
            r@ == Seq::<Scene>::empty(),
    {
        SceneArchive { scenes: Vec::new() }
    }

    /// Append one scene; nothing already archived changes.
    pub fn push(&mut self, scene: Scene)
        ensures
            final(self)@ == old(self)@.push(scene),
    {
        self.scenes.push(scene);
    }

    pub fn len(&self) -> (r: usize)
        ensures
            r == self@.len(),
    {
        self.scenes.len()
    }

    pub fn is_empty(&self) -> (r: bool)
        ensures
            r == (self@.len() == 0),
    {
        self.scenes.len() == 0
    }

    pub fn last(&self) -> (r: Option<&Scene>)
        ensures
            self@.len() == 0 ==> r is None,
            self@.len() > 0 ==> r == Some(&self@.last()),
    {
        self.scenes.as_slice().last()
    }

    pub fn iter(&self) -> (r: std::slice::Iter<'_, Scene>)
        ensures
            vstd::std_specs::iter::IteratorSpec::remaining(&r).len() == self@.len(),
            forall|i: int|
                0 <= i < self@.len() ==> *vstd::std_specs::iter::IteratorSpec::remaining(&r)[i]
                    == self@[i],
    {
        self.scenes.as_slice().iter()
    }
}

impl Default for SceneArchive {
    fn default() -> (r: SceneArchive)
        ensures
            r@ == Seq::<Scene>::empty(),
    {
        SceneArchive::new()
    }
}

/// Placeholder OCR for when real OCR is not wired up: a marker string at
/// confidence `0.0`, so the pipeline runs end to end unchanged.
pub fn stub_ocr(_image: &ImageInput) -> (r: OcrInput)
    ensures
        r.text@ == "(stub OCR — wire tesseract-rs or remote OCR for real text)"@,
        r.confidence_bits == 0,
{
    OcrInput {
        text: String::from_str("(stub OCR — wire tesseract-rs or remote OCR for real text)"),
        confidence_bits: 0,
    }
}

/// Placeholder metadata: a `source_path` field holding the displayed path
/// and a `provenance` field marking the record as a stub.
pub fn stub_exif(path: &str) -> (r: ExifInput)
    ensures
        r.fields@.len() == 2,
        r.fields@[0].0@ == "source_path"@,
        r.fields@[0].1@ == path@,
        r.fields@[1].0@ == "provenance"@,
        r.fields@[1].1@ == "stub"@,
{
    ExifInput {
        fields: vec![
            (String::from_str("source_path"), String::from_str(path)),
            (String::from_str("provenance"), String::from_str("stub")),
        ],
    }
}

/// Decode an image for its width and height; a failure is reported as
/// `ImageDecode` with the call-site `label` and the decoder's text.
pub fn decoded_dimensions(raw: &[u8], label: &'static str) -> (r: Result<(u32, u32), VisionError>)
    ensures
        match r {
            Ok(d) => image_decoding(raw@) == Ok::<(u32, u32), Seq<char>>(d),
            Err(e) => e matches VisionError::ImageDecode { label: l, message } && l == label
                && image_decoding(raw@) == Err::<(u32, u32), Seq<char>>(message@),
        },
{
    match decode_dimensions(raw) {
        Ok(d) => Ok(d),
        Err(message) => Err(VisionError::ImageDecode { label, message }),
    }
}

/// The error that capping reports, with the call-site `label`, for a
/// payload that `capped_image` cannot bring under `max_bytes`: the
/// decoder's text when the bytes do not decode, else the encoder's, else an
/// `"image"` payload of the JPEG's length over the cap.
pub open spec fn cap_error(
    bytes: Seq<u8>,
    max_bytes: usize,
    max_side: u32,
    label: &'static str,
    e: VisionError,
) -> bool {
    match image_decoding(bytes) {
        Err(d) => e matches VisionError::ImageDecode { label: l, message } && l == label
            && message@ == d,
        Ok(_) => match jpeg_thumbnail(bytes, max_side) {
            Err(m) => e matches VisionError::ImageEncode { label: l, message } && l == label
                && message@ == m,
            Ok(v) => e matches VisionError::OversizedInput { kind, bytes: n, cap } && kind@ == "image"@
                && n == v.len() && cap == max_bytes,
        },
    }
}

/// Cap an inline image payload under `max_bytes`: the bytes as they are
/// when they fit, otherwise a JPEG re-encode scaled to `max_side` on the
/// longest axis, refused as `OversizedInput` when even that is over the
/// cap. Decoder and encoder failures carry the call-site `label`.
pub fn cap_image<'a>(
    bytes: &'a [u8],
    media_type: &'static str,
    max_bytes: usize,
    max_side: u32,
    label: &'static str,
) -> (r: Result<(Payload<'a>, &'static str), VisionError>)
    ensures
        bytes@.len() <= max_bytes ==> (r matches Ok((p, m)) && p == Payload::Borrowed(bytes) && m
            == media_type),
        bytes@.len() > max_bytes ==> (r matches Ok((p, _)) ==> p is Owned),
        match capped_image(bytes@, media_type@, max_bytes, max_side) {
            Some((b, m)) => r matches Ok((p, mt)) && p.bytes() == b && mt@ == m,
            None => r matches Err(e) && cap_error(bytes@, max_bytes, max_side, label, e),
        },
{
    proof {
        reveal_strlit("image");
    }
    match cap_payload(bytes, media_type, max_bytes, max_side) {
        Ok(capped) => Ok(capped),
        Err(CapFailure::Decode(message)) => Err(VisionError::ImageDecode { label, message }),
        Err(CapFailure::Encode(message)) => Err(VisionError::ImageEncode { label, message }),
        Err(CapFailure::TooLarge(n)) => Err(
            VisionError::OversizedInput { kind: "image", bytes: n, cap: max_bytes },
        ),
    }
}


/// Each image shows in the mock caption as `[image {width}x{height}
/// ~{estimated tokens}tok]`: the width first, then the height, each written
/// in decimal.
pub proof fn lemma_mock_caption_shows_image(s: Seq<Input>, scalars: Seq<String>, k: int)
    requires
        0 <= k < s.len(),
        scalars.len() == s.len(),
    ensures
        s[k] matches Input::Image(i) ==> occurs_in(
            "[image "@ + decimal(i.width as nat) + "x"@ + decimal(i.height as nat) + " ~"@
                + decimal(i.estimated_tokens as nat) + "tok]"@,
            mock_caption(s, scalars),
        ),
{
    if let Input::Image(i) = s[k] {
        let ps = input_parts(s, scalars);
        let sep = " + "@;
        let o = lemma_joined_part_at(ps, sep, k);
        let head = "synthesised from"@ + " "@ + decimal(s.len()) + " "@ + "inputs"@ + ": "@;
        let c = mock_caption(s, scalars);
        let t = "[image "@ + decimal(i.width as nat) + "x"@ + decimal(i.height as nat) + " ~"@
            + decimal(i.estimated_tokens as nat) + "tok]"@;
        assert(ps[k] == t);
        assert(c == head + crate::text::joined(ps, sep));
        let at = head.len() + o;
        assert(c.subrange(at, at + t.len()) =~= ps[k]);
    }
}
} // verus!
