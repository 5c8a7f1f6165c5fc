//! The vision layer: heterogeneous antecedents (image, OCR text, metadata,
//! audio transcript) weighed in tokens, unified into one scene, and
//! deposited into an append-only archive.
//!
//! Floating-point readings (an OCR confidence, an audio duration) are
//! carried as their IEEE-754 bit patterns: the library passes them through
//! unchanged and never computes with them.

use std::sync::Arc;

use vstd::prelude::*;
use vstd::string::*;

use crate::caption::{
    audio_caption_part, audio_part, caption, caption_text, exif_caption_part, exif_part,
    image_caption_part, image_part, ocr_caption_part, ocr_part,
};
use crate::media::{
    cap_payload, capped_image, decode_dimensions, image_decoding, jpeg_thumbnail, CapFailure,
    Payload,
};
use crate::process::{BudgetError, Occasion, PublicWorld};
use crate::shape::occurs_in;
use crate::text::{decimal, lemma_joined_part_at, views};
use crate::tokens::{
    exif_tokens, exif_weight, exif_weight_computable, exif_weight_fits, text_tokens, text_weight,
    utf8_len,
};

pub use crate::text::truncate;

verus! {

/// `std::io::Error`, carried opaque in the `Io` error variants.
#[verifier::external_type_specification]
#[verifier::external_body]
pub struct ExIoError(std::io::Error);

/// Decoded image bytes packaged for inline upload to a vision model.
#[derive(Clone, Debug)]
pub struct ImagePrehension {
    /// The encoded bytes as received (PNG/JPEG/WebP/GIF), shared and never
    /// mutated.
    pub raw_bytes: Arc<Vec<u8>>,
    /// MIME type sent on the wire: `"image/png"`, `"image/jpeg"`,
    /// `"image/webp"` or `"image/gif"`.
    pub media_type: &'static str,
    /// Width in pixels of the decoded image.
    pub width: u32,
    /// Height in pixels of the decoded image.
    pub height: u32,
    /// Coarse token estimate, `ceil(w·h / 750)`, used for admission.
    pub estimated_tokens: u32,
}

/// OCR text recovered from an image, with a confidence hint.
#[derive(Clone, Debug)]
pub struct OcrPrehension {
    /// Recognised text, seen verbatim by the synthesiser.
    pub text: String,
    /// Bit pattern of the `f32` confidence in `[0.0, 1.0]`; `0` (that is,
    /// `0.0`) is the placeholder when no real confidence is available.
    pub confidence_bits: u32,
}

/// Image metadata fields (typically EXIF; any key/value pairs work).
#[derive(Clone, Debug)]
pub struct ExifPrehension {
    /// Ordered `(key, value)` pairs; the order is kept in rendered prompts.
    pub fields: Vec<(String, String)>,
}

/// Transcribed audio aligned with a visual scene.
#[derive(Clone, Debug)]
pub struct AudioPrehension {
    /// Plain-text transcript of the audio segment.
    pub transcript: String,
    /// Bit pattern of the `f32` duration of the source audio, in seconds.
    pub duration_bits: u32,
}

/// One heterogeneous antecedent. Each variant is already objectified data.
#[derive(Clone, Debug)]
pub enum Antecedent {
    Image(ImagePrehension),
    Ocr(OcrPrehension),
    Exif(ExifPrehension),
    Audio(AudioPrehension),
}

impl Antecedent {
    /// The inputs whose token weight is computed without overflow: every
    /// antecedent but a metadata record whose weight overflows `u32`.
    pub open spec fn weight_fits(&self) -> bool {
        match self {
            Antecedent::Exif(e) => exif_weight_fits(e.fields@),
            _ => true,
        }
    }

    /// Token weight: the image's own estimate; `bytes / 4` rounded up for
    /// text; the field count times the average characters per field, divided
    /// by four, at least 8, for metadata.
    pub open spec fn spec_token_weight(&self) -> nat {
        match self {
            Antecedent::Image(i) => i.estimated_tokens as nat,
            Antecedent::Ocr(o) => text_tokens(utf8_len(o.text@)),
            Antecedent::Exif(e) => exif_tokens(e.fields@),
            Antecedent::Audio(a) => text_tokens(utf8_len(a.transcript@)),
        }
    }

    /// Token weight used by budget admission.
    pub fn token_weight(&self) -> (r: u32)
        requires
            self.weight_fits(),
        ensures
            r == self.spec_token_weight(),
    {
        match self {
            Antecedent::Image(i) => i.estimated_tokens,
            Antecedent::Ocr(o) => text_weight(o.text.as_str()),
            Antecedent::Exif(e) => exif_weight(&e.fields),
            Antecedent::Audio(a) => text_weight(a.transcript.as_str()),
        }
    }
}

impl Occasion for Antecedent {
    type Datum = Antecedent;

    type Satisfaction = Antecedent;

    fn datum(&self) -> (r: &Antecedent)
        ensures
            r == self,
    {
        self
    }

    fn is_satisfied(&self) -> (r: bool)
        ensures
            r,
    {
        true
    }

    fn satisfaction(&self) -> (r: Option<&Antecedent>)
        ensures
            r == Some(self),
    {
        Some(self)
    }
}

/// Whether every antecedent's weight can be computed.
pub open spec fn all_weights_fit(s: Seq<Antecedent>) -> bool {
    forall|i: int| 0 <= i < s.len() ==> (#[trigger] s[i]).weight_fits()
}

/// Whether every input's token weight can be computed, so that the
/// pipeline's weight functions may be called on them.
pub fn weights_computable(antecedents: &[Antecedent]) -> (r: bool)
    ensures
        r == all_weights_fit(antecedents@),
{
    let mut i: usize = 0;
    while i < antecedents.len()
        invariant
            i <= antecedents@.len(),
            forall|j: int| 0 <= j < i ==> (#[trigger] antecedents@[j]).weight_fits(),
        decreases antecedents@.len() - i,
    {
        let fits = match &antecedents[i] {
            Antecedent::Exif(e) => exif_weight_computable(&e.fields),
            _ => true,
        };
        if !fits {
            return false;
        }
        i = i + 1;
    }
    true
}

/// Sum of the token weights of the first `n` antecedents.
pub open spec fn weight_sum(s: Seq<Antecedent>, n: int) -> nat
    decreases n,
{
    if n <= 0 {
        0
    } else {
        weight_sum(s, n - 1) + s[n - 1].spec_token_weight()
    }
}

/// The running total of the first `n` weights, clamped at `u32::MAX` after
/// every addition (a `saturating_add` fold).
pub open spec fn saturating_sum(s: Seq<Antecedent>, n: int) -> nat
    decreases n,
{
    if n <= 0 {
        0
    } else {
        let t = saturating_sum(s, n - 1) + s[n - 1].spec_token_weight();
        if t > u32::MAX {
            u32::MAX as nat
        } else {
            t
        }
    }
}

/// A saturating fold of the weights is their sum, capped at `u32::MAX`.
pub proof fn lemma_saturating_sum_is_capped_sum(s: Seq<Antecedent>, n: int)
    requires
        0 <= n <= s.len(),
    ensures
        saturating_sum(s, n) == if weight_sum(s, n) > u32::MAX {
            u32::MAX as nat
        } else {
            weight_sum(s, n)
        },
    decreases n,
{
    if n > 0 {
        lemma_saturating_sum_is_capped_sum(s, n - 1);
    }
}

/// Total token weight, clamped at `u32::MAX`: the quantity admission checks
/// and the mock client reports.
pub fn saturating_token_total(antecedents: &[Antecedent]) -> (r: u32)
    requires
        all_weights_fit(antecedents@),
    ensures
        r == saturating_sum(antecedents@, antecedents@.len() as int),
{
    let mut total: u32 = 0;
    let mut i: usize = 0;
    while i < antecedents.len()
        invariant
            i <= antecedents@.len(),
            all_weights_fit(antecedents@),
            total == saturating_sum(antecedents@, i as int),
        decreases antecedents@.len() - i,
    {
        let w: u32 = antecedents[i].token_weight();
        total = total.saturating_add(w);
        i = i + 1;
    }
    total
}

/// Aggregate token diameter: the exact sum of the weights, as a `u64`.
pub fn token_diameter(antecedents: &[Antecedent]) -> (r: u64)
    requires
        all_weights_fit(antecedents@),
        weight_sum(antecedents@, antecedents@.len() as int) <= u64::MAX,
    ensures
        r == weight_sum(antecedents@, antecedents@.len() as int),
{
    let mut total: u64 = 0;
    let mut i: usize = 0;
    while i < antecedents.len()
        invariant
            i <= antecedents@.len(),
            all_weights_fit(antecedents@),
            weight_sum(antecedents@, antecedents@.len() as int) <= u64::MAX,
            total == weight_sum(antecedents@, i as int),
        decreases antecedents@.len() - i,
    {
        proof {
            lemma_weight_sum_monotone(antecedents@, i + 1, antecedents@.len() as int);
        }
        let w: u32 = antecedents[i].token_weight();
        total = total + w as u64;
        i = i + 1;
    }
    total
}

/// Summing more of the inputs never gives less.
pub proof fn lemma_weight_sum_monotone(s: Seq<Antecedent>, a: int, b: int)
    requires
        0 <= a <= b,
    ensures
        weight_sum(s, a) <= weight_sum(s, b),
    decreases b - a,
{
    if a < b {
        lemma_weight_sum_monotone(s, a, b - 1);
    }
}

/// Adding an input leaves the weights of those before it as they were.
proof fn lemma_weight_sum_push(s: Seq<Antecedent>, x: Antecedent, n: int)
    requires
        0 <= n <= s.len(),
    ensures
        weight_sum(s.push(x), n) == weight_sum(s, n),
    decreases n,
{
    if n > 0 {
        lemma_weight_sum_push(s, x, n - 1);
        assert(s.push(x)[n - 1] == s[n - 1]);
    }
}

/// The diameter of no inputs is zero, and adding an input adds exactly its
/// token weight: the diameter of any inputs is the sum of their weights,
/// one by one.
pub proof fn lemma_diameter_adds_weights(s: Seq<Antecedent>, x: Antecedent)
    ensures
        weight_sum(Seq::<Antecedent>::empty(), 0) == 0,
        weight_sum(s.push(x), s.len() + 1int) == weight_sum(s, s.len() as int)
            + x.spec_token_weight(),
{
    lemma_weight_sum_push(s, x, s.len() as int);
    assert(s.push(x)[s.len() as int] == x);
}

/// The output of one concrescence: a single textual scene description
/// fused from all antecedents.
#[derive(Clone, Debug)]
pub struct UnifiedScene {
    /// The synthesised description.
    pub caption: String,
    /// Number of antecedents that participated in this synthesis.
    pub contributing: usize,
    /// Total token cost.
    pub total_tokens: u32,
}

/// Failure modes of the vision pipeline.
#[derive(Debug)]
#[non_exhaustive]
pub enum ConcrescenceError {
    /// Aggregate prehension diameter exceeded the spectral budget.
    Budget(BudgetError),
    /// The concrescence was empty: nothing to unify.
    NoAntecedents,
    /// A required environment variable is not set.
    MissingEnv { var: &'static str },
    /// I/O failure reading an input from disk.
    Io(std::io::Error),
    /// Could not decode an input image; `label` names the call site.
    ImageDecode { label: &'static str, message: String },
    /// Could not re-encode a downscaled image while capping its size.
    ImageEncode { label: &'static str, message: String },
    /// A specific antecedent kind was required but not supplied.
    MissingAntecedent { kind: &'static str },
    /// An input payload exceeded its configured byte cap.
    OversizedInput { kind: &'static str, bytes: usize, cap: usize },
    /// Upstream HTTP or transport failure.
    Network(String),
}

impl From<BudgetError> for ConcrescenceError {
    fn from(e: BudgetError) -> (r: ConcrescenceError) {
        ConcrescenceError::Budget(e)
    }
}

impl vstd::std_specs::convert::FromSpecImpl<BudgetError> for ConcrescenceError {
    open spec fn obeys_from_spec() -> bool {
        true
    }

    open spec fn from_spec(e: BudgetError) -> ConcrescenceError {
        ConcrescenceError::Budget(e)
    }
}

impl From<std::io::Error> for ConcrescenceError {
    fn from(e: std::io::Error) -> (r: ConcrescenceError) {
        ConcrescenceError::Io(e)
    }
}

impl vstd::std_specs::convert::FromSpecImpl<std::io::Error> for ConcrescenceError {
    open spec fn obeys_from_spec() -> bool {
        true
    }

    open spec fn from_spec(e: std::io::Error) -> ConcrescenceError {
        ConcrescenceError::Io(e)
    }
}

/// The caption part the mock client writes for one antecedent, given the
/// text of its floating-point reading (unused for images and metadata).
pub open spec fn antecedent_part(a: Antecedent, scalar: Seq<char>) -> Seq<char> {
    match a {
        Antecedent::Image(i) => image_part(
            i.width as nat,
            i.height as nat,
            i.estimated_tokens as nat,
        ),
        Antecedent::Ocr(o) => ocr_part(scalar, o.text@),
        Antecedent::Exif(e) => exif_part(e.fields@.len()),
        Antecedent::Audio(a) => audio_part(scalar, a.transcript@),
    }
}

/// The caption parts of all antecedents, in order.
pub open spec fn antecedent_parts(s: Seq<Antecedent>, scalars: Seq<String>) -> Seq<Seq<char>> {
    Seq::new(s.len(), |i: int| antecedent_part(s[i], scalars[i]@))
}

/// The mock client's caption for a non-empty list of antecedents.
pub open spec fn mock_caption(s: Seq<Antecedent>, scalars: Seq<String>) -> Seq<char> {
    caption_text("concresced from"@, s.len(), "prehensions"@, antecedent_parts(s, scalars), " ⊕ "@)
}

/// Deterministic, network-free client: the reference implementation of a
/// synthesiser, which needs no API keys.
pub struct MockVisionClient;

impl MockVisionClient {
    /// Unify the antecedents into one scene. `scalars[i]` is the rendered
    /// floating-point reading of `antecedents[i]`: its confidence to two
    /// places for OCR text, its duration to one place for audio, and
    /// ignored otherwise.
    pub fn synthesize(&self, antecedents: &[Antecedent], scalars: &Vec<String>) -> (r: Result<
        UnifiedScene,
        ConcrescenceError,
    >)
        requires
            scalars@.len() == antecedents@.len(),
            all_weights_fit(antecedents@),
        ensures
            r is Err <==> antecedents@.len() == 0,
            r matches Err(e) ==> e is NoAntecedents,
            r matches Ok(scene) ==> {
                &&& scene.contributing == antecedents@.len()
                &&& scene.total_tokens == saturating_sum(
                    antecedents@,
                    antecedents@.len() as int,
                )
                &&& scene.caption@ == mock_caption(antecedents@, scalars@)
            },
    {
        if antecedents.len() == 0 {
            return Err(ConcrescenceError::NoAntecedents);
        }
        let mut parts: Vec<String> = Vec::new();
        let mut total_tokens: u32 = 0;
        let mut i: usize = 0;
        while i < antecedents.len()
            invariant
                i <= antecedents@.len(),
                scalars@.len() == antecedents@.len(),
                all_weights_fit(antecedents@),
                total_tokens == saturating_sum(antecedents@, i as int),
                parts@.len() == i,
                forall|j: int|
                    0 <= j < i ==> (#[trigger] parts@[j])@ == antecedent_part(
                        antecedents@[j],
                        scalars@[j]@,
                    ),
            decreases antecedents@.len() - i,
        {
            let a = &antecedents[i];
            total_tokens = total_tokens.saturating_add(a.token_weight());
            let part = match a {
                Antecedent::Image(img) => image_caption_part(
                    img.width,
                    img.height,
                    img.estimated_tokens,
                ),
                Antecedent::Ocr(o) => ocr_caption_part(scalars[i].as_str(), o.text.as_str()),
                Antecedent::Exif(e) => exif_caption_part(e.fields.len()),
                Antecedent::Audio(au) => audio_caption_part(
                    scalars[i].as_str(),
                    au.transcript.as_str(),
                ),
            };
            parts.push(part);
            i = i + 1;
        }
        let text = caption("concresced from", antecedents.len(), "prehensions", &parts, " ⊕ ");
        assert(views(parts@) =~= antecedent_parts(antecedents@, scalars@));
        Ok(UnifiedScene { caption: text, contributing: antecedents.len(), total_tokens })
    }
}

/// The public world of the vision pipeline: an append-only history of
/// unified scenes, each run's caption available to seed the next.
pub struct SceneArchive {
    scenes: Vec<UnifiedScene>,
}

impl View for SceneArchive {
    type V = Seq<UnifiedScene>;

    closed spec fn view(&self) -> Seq<UnifiedScene> {
        self.scenes@
    }
}

impl SceneArchive {
    pub fn new() -> (r: SceneArchive)
        ensures
            r@ == Seq::<UnifiedScene>::empty(),
    {
        SceneArchive { scenes: Vec::new() }
    }

    pub fn len(&self) -> (r: usize)
        ensures
            r == self@.len(),
    {
        self.scenes.len()
    }

    pub fn is_empty(&self) -> (r: bool)
        ensures
            r == (self@.len() == 0),
    {
        self.scenes.len() == 0
    }

    pub fn last(&self) -> (r: Option<&UnifiedScene>)
        ensures
            self@.len() == 0 ==> r is None,
            self@.len() > 0 ==> r == Some(&self@.last()),
    {
        self.scenes.as_slice().last()
    }

    pub fn iter(&self) -> (r: std::slice::Iter<'_, UnifiedScene>)
        ensures
            vstd::std_specs::iter::IteratorSpec::remaining(&r).len() == self@.len(),
            forall|i: int|
                0 <= i < self@.len() ==> *vstd::std_specs::iter::IteratorSpec::remaining(&r)[i]
                    == self@[i],
    {
        self.scenes.as_slice().iter()
    }
}

impl Default for SceneArchive {
    fn default() -> (r: SceneArchive)
        ensures
            r@ == Seq::<UnifiedScene>::empty(),
    {
        SceneArchive::new()
    }
}

impl PublicWorld for SceneArchive {
    type Inhabitant = UnifiedScene;

    fn deposit(&mut self, x: UnifiedScene)
        ensures
            final(self)@ == old(self)@.push(x),
    {
        self.scenes.push(x);
    }
}

/// Placeholder OCR for when real OCR is not wired up: a marker string at
/// confidence `0.0`, so the pipeline runs end to end unchanged.
pub fn stub_ocr(_image: &ImagePrehension) -> (r: OcrPrehension)
    ensures
        r.text@ == "(stub OCR — wire tesseract-rs or remote OCR for real text)"@,
        r.confidence_bits == 0,
{
    OcrPrehension {
        text: String::from_str("(stub OCR — wire tesseract-rs or remote OCR for real text)"),
        confidence_bits: 0,
    }
}

/// Placeholder metadata: a `source_path` field holding the displayed path
/// and a `provenance` field marking the record as a stub.
pub fn stub_exif(path: &str) -> (r: ExifPrehension)
    ensures
        r.fields@.len() == 2,
        r.fields@[0].0@ == "source_path"@,
        r.fields@[0].1@ == path@,
        r.fields@[1].0@ == "provenance"@,
        r.fields@[1].1@ == "stub"@,
{
    ExifPrehension {
        fields: vec![
            (String::from_str("source_path"), String::from_str(path)),
            (String::from_str("provenance"), String::from_str("stub")),
        ],
    }
}

/// Decode an image for its width and height; a failure is reported as
/// `ImageDecode` with the call-site `label` and the decoder's text.
pub fn decoded_dimensions(raw: &[u8], label: &'static str) -> (r: Result<(u32, u32), ConcrescenceError>)
    ensures
        match r {
            Ok(d) => image_decoding(raw@) == Ok::<(u32, u32), Seq<char>>(d),
            Err(e) => e matches ConcrescenceError::ImageDecode { label: l, message } && l == label
                && image_decoding(raw@) == Err::<(u32, u32), Seq<char>>(message@),
        },
{
    match decode_dimensions(raw) {
        Ok(d) => Ok(d),
        Err(message) => Err(ConcrescenceError::ImageDecode { label, message }),
    }
}

/// The error that capping reports, with the call-site `label`, for a
/// payload that `capped_image` cannot bring under `max_bytes`: the
/// decoder's text when the bytes do not decode, else the encoder's, else an
/// `"image"` payload of the JPEG's length over the cap.
pub open spec fn cap_error(
    bytes: Seq<u8>,
    max_bytes: usize,
    max_side: u32,
    label: &'static str,
    e: ConcrescenceError,
) -> bool {
    match image_decoding(bytes) {
        Err(d) => e matches ConcrescenceError::ImageDecode { label: l, message } && l == label
            && message@ == d,
        Ok(_) => match jpeg_thumbnail(bytes, max_side) {
            Err(m) => e matches ConcrescenceError::ImageEncode { label: l, message } && l == label
                && message@ == m,
            Ok(v) => e matches ConcrescenceError::OversizedInput { kind, bytes: n, cap } && kind@ == "image"@
                && n == v.len() && cap == max_bytes,
        },
    }
}

/// Cap an inline image payload under `max_bytes`: the bytes as they are
/// when they fit, otherwise a JPEG re-encode scaled to `max_side` on the
/// longest axis, refused as `OversizedInput` when even that is over the
/// cap. Decoder and encoder failures carry the call-site `label`.
pub fn cap_image<'a>(
    bytes: &'a [u8],
    media_type: &'static str,
    max_bytes: usize,
    max_side: u32,
    label: &'static str,
) -> (r: Result<(Payload<'a>, &'static str), ConcrescenceError>)
    ensures
        bytes@.len() <= max_bytes ==> (r matches Ok((p, m)) && p == Payload::Borrowed(bytes) && m
            == media_type),
        bytes@.len() > max_bytes ==> (r matches Ok((p, _)) ==> p is Owned),
        match capped_image(bytes@, media_type@, max_bytes, max_side) {
            Some((b, m)) => r matches Ok((p, mt)) && p.bytes() == b && mt@ == m,
            None => r matches Err(e) && cap_error(bytes@, max_bytes, max_side, label, e),
        },
{
    proof {
        reveal_strlit("image");
    }
    match cap_payload(bytes, media_type, max_bytes, max_side) {
        Ok(capped) => Ok(capped),
        Err(CapFailure::Decode(message)) => Err(ConcrescenceError::ImageDecode { label, message }),
        Err(CapFailure::Encode(message)) => Err(ConcrescenceError::ImageEncode { label, message }),
        Err(CapFailure::TooLarge(n)) => Err(
            ConcrescenceError::OversizedInput { kind: "image", bytes: n, cap: max_bytes },
        ),
    }
}


/// Each image shows in the mock caption as `[image {width}x{height}
/// ~{estimated tokens}tok]`: the width first, then the height, each written
/// in decimal.
pub proof fn lemma_mock_caption_shows_image(s: Seq<Antecedent>, scalars: Seq<String>, k: int)
    requires
        0 <= k < s.len(),
        scalars.len() == s.len(),
    ensures
        s[k] matches Antecedent::Image(i) ==> occurs_in(
            "[image "@ + decimal(i.width as nat) + "x"@ + decimal(i.height as nat) + " ~"@
                + decimal(i.estimated_tokens as nat) + "tok]"@,
            mock_caption(s, scalars),
        ),
{
    if let Antecedent::Image(i) = s[k] {
        let ps = antecedent_parts(s, scalars);
        let sep = " ⊕ "@;
        let o = lemma_joined_part_at(ps, sep, k);
        let head = "concresced from"@ + " "@ + decimal(s.len()) + " "@ + "prehensions"@ + ": "@;
        let c = mock_caption(s, scalars);
        let t = "[image "@ + decimal(i.width as nat) + "x"@ + decimal(i.height as nat) + " ~"@
            + decimal(i.estimated_tokens as nat) + "tok]"@;
        assert(ps[k] == t);
        assert(c == head + crate::text::joined(ps, sep));
        let at = head.len() + o;
        assert(c.subrange(at, at + t.len()) =~= ps[k]);
    }
}
} // verus!
