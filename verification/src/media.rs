//! Image payload handling: decoding through the `image` crate, capping an
//! inline payload under a byte limit by a JPEG re-encode, base64 data URIs,
//! and the MIME type implied by a file extension.

use base64::Engine;

use vstd::prelude::*;
use vstd::string::*;

use crate::text::{chars_of, str_equal, string_from_chars};

verus! {

/// What the `image` crate's built-in decoders make of a byte string:
/// `image::guess_format` on the bytes, then
/// `image::load_from_memory_with_format` with the format found. The width
/// and height of the decoded image, or the rendered text of the error.
pub uninterp spec fn image_decoding(bytes: Seq<u8>) -> Result<(u32, u32), Seq<char>>;

/// What the `image` crate makes of a byte string decoded as for
/// `image_decoding`, shrunk by `DynamicImage::thumbnail(side, side)` (aspect
/// ratio kept, within `side × side`) and written by `DynamicImage::write_to`
/// as `ImageFormat::Jpeg`: the JPEG bytes, or the rendered text of the
/// error.
pub uninterp spec fn jpeg_thumbnail(bytes: Seq<u8>, side: u32) -> Result<Seq<u8>, Seq<char>>;

/// `image::guess_format` then `image::load_from_memory_with_format`: the
/// decoded image's width and height, or the error's text, as named by
/// `image_decoding`. Neither call consults the crate's registered hooks.
#[verifier::external_body]
fn load_dimensions(bytes: &[u8]) -> (r: Result<(u32, u32), String>)
    ensures
        match r {
            Ok(d) => image_decoding(bytes@) == Ok::<(u32, u32), Seq<char>>(d),
            Err(m) => image_decoding(bytes@) == Err::<(u32, u32), Seq<char>>(m@),
        },
{
    let format = match image::guess_format(bytes) {
        Ok(f) => f,
        Err(e) => return Err(e.to_string()),
    };
    match image::load_from_memory_with_format(bytes, format) {
        Ok(img) => Ok((img.width(), img.height())),
        Err(e) => Err(e.to_string()),
    }
}

/// Decode as `load_dimensions` does, then `DynamicImage::thumbnail(side,
/// side)` and `DynamicImage::write_to` into a buffer as
/// `ImageFormat::Jpeg`. The outcome is the one `jpeg_thumbnail` names: a
/// decoder failure is also `image_decoding`'s error, and an encoder
/// failure and a success both come only after a successful decode. The
/// buffer, like every vector, holds at most `isize::MAX` bytes.
#[verifier::external_body]
fn encode_jpeg_thumbnail(bytes: &[u8], side: u32) -> (r: Result<Vec<u8>, CapFailure>)
    ensures
        match r {
            Ok(v) => jpeg_thumbnail(bytes@, side) == Ok::<Seq<u8>, Seq<char>>(v@) && v@.len()
                <= isize::MAX && image_decoding(bytes@) is Ok,
            Err(CapFailure::Decode(m)) => jpeg_thumbnail(bytes@, side) == Err::<Seq<u8>, Seq<char>>(
                m@,
            ) && image_decoding(bytes@) == Err::<(u32, u32), Seq<char>>(m@),
            Err(CapFailure::Encode(m)) => jpeg_thumbnail(bytes@, side) == Err::<Seq<u8>, Seq<char>>(
                m@,
            ) && image_decoding(bytes@) is Ok,
            Err(CapFailure::TooLarge(_)) => false,
        },
{
    let format = match image::guess_format(bytes) {
        Ok(f) => f,
        Err(e) => return Err(CapFailure::Decode(e.to_string())),
    };
    let img = match image::load_from_memory_with_format(bytes, format) {
        Ok(img) => img,
        Err(e) => return Err(CapFailure::Decode(e.to_string())),
    };
    let mut buf: Vec<u8> = Vec::new();
    match img.thumbnail(side, side).write_to(&mut std::io::Cursor::new(&mut buf), image::ImageFormat::Jpeg) {
        Ok(()) => Ok(buf),
        Err(e) => Err(CapFailure::Encode(e.to_string())),
    }
}

/// Decode an image and report its width and height, or the decoder's
/// error text.
pub fn decode_dimensions(bytes: &[u8]) -> (r: Result<(u32, u32), String>)
    ensures
        match r {
            Ok(d) => image_decoding(bytes@) == Ok::<(u32, u32), Seq<char>>(d),
            Err(m) => image_decoding(bytes@) == Err::<(u32, u32), Seq<char>>(m@),
        },
{
    load_dimensions(bytes)
}

/// An image payload: the caller's bytes, or a re-encoded replacement.
pub enum Payload<'a> {
    Borrowed(&'a [u8]),
    Owned(Vec<u8>),
}

impl<'a> Payload<'a> {
    /// The payload's bytes, whichever variant holds them.
    pub open spec fn bytes(&self) -> Seq<u8> {
        match self {
            Payload::Borrowed(b) => b@,
            Payload::Owned(v) => v@,
        }
    }

    pub fn as_slice(&self) -> (r: &[u8])
        ensures
            r@ == self.bytes(),
    {
        match self {
            Payload::Borrowed(b) => b,
            Payload::Owned(v) => v.as_slice(),
        }
    }
}

/// Why a payload over its cap could not be reduced.
pub enum CapFailure {
    /// The bytes do not decode as an image; the decoder's text.
    Decode(String),
    /// The downscaled image could not be encoded as JPEG; the encoder's text.
    Encode(String),
    /// The JPEG re-encode is still over the cap; its length in bytes.
    TooLarge(usize),
}

/// The bytes and MIME type that capping sends: the payload as it is when
/// it fits under `max_bytes`; else, when it decodes, its JPEG thumbnail
/// when that fits; `None` when the payload cannot be brought under the cap.
pub open spec fn capped_image(bytes: Seq<u8>, media_type: Seq<char>, max_bytes: usize, max_side: u32) -> Option<(Seq<u8>, Seq<char>)> {
    if bytes.len() <= max_bytes {
        Some((bytes, media_type))
    } else if image_decoding(bytes) is Err {
        None
    } else {
        match jpeg_thumbnail(bytes, max_side) {
            Ok(v) => if v.len() <= max_bytes {
                Some((v, "image/jpeg"@))
            } else {
                None
            },
            Err(_) => None,
        }
    }
}

/// The failure that capping reports for a payload that `capped_image`
/// cannot bring under the cap: the decoder's error when the bytes do not
/// decode, else the encoder's, else the length of the JPEG that is still
/// too large.
pub open spec fn cap_failure(bytes: Seq<u8>, max_side: u32, f: CapFailure) -> bool {
    match image_decoding(bytes) {
        Err(d) => f matches CapFailure::Decode(msg) && msg@ == d,
        Ok(_) => match jpeg_thumbnail(bytes, max_side) {
            Err(m) => f matches CapFailure::Encode(msg) && msg@ == m,
            Ok(v) => f matches CapFailure::TooLarge(n) && n == v.len(),
        },
    }
}

/// Keep `bytes` as they are when they fit under `max_bytes`; otherwise
/// decode them, scale the image to fit `max_side × max_side`, re-encode it
/// as JPEG, and keep that when it fits under `max_bytes`.
pub fn cap_payload<'a>(
    bytes: &'a [u8],
    media_type: &'static str,
    max_bytes: usize,
    max_side: u32,
) -> (r: Result<(Payload<'a>, &'static str), CapFailure>)
    ensures
        bytes@.len() <= max_bytes ==> (r matches Ok((p, m)) && p == Payload::Borrowed(bytes) && m
            == media_type),
        bytes@.len() > max_bytes ==> (r matches Ok((p, _)) ==> p is Owned),
        match capped_image(bytes@, media_type@, max_bytes, max_side) {
            Some((b, m)) => r matches Ok((p, mt)) && p.bytes() == b && mt@ == m,
            None => r matches Err(f) && cap_failure(bytes@, max_side, f),
        },
{
    if bytes.len() <= max_bytes {
        return Ok((Payload::Borrowed(bytes), media_type));
    }
    proof {
        reveal_strlit("image/jpeg");
    }
    match encode_jpeg_thumbnail(bytes, max_side) {
        Ok(buf) => {
            if buf.len() <= max_bytes {
                Ok((Payload::Owned(buf), "image/jpeg"))
            } else {
                Err(CapFailure::TooLarge(buf.len()))
            }
        },
        Err(f) => Err(f),
    }
}

/// The character of the standard base64 alphabet at index `i < 64`.
pub open spec fn base64_char(i: int) -> char {
    if i < 26 {
        (65 + i) as char
    } else if i < 52 {
        (97 + i - 26) as char
    } else if i < 62 {
        (48 + i - 52) as char
    } else if i == 62 {
        '+'
    } else {
        '/'
    }
}

/// Standard base64 with `=` padding: every three bytes become four
/// characters of six bits each, a short final group is padded.
pub open spec fn base64(s: Seq<u8>) -> Seq<char>
    decreases s.len(),
{
    if s.len() == 0 {
        Seq::empty()
    } else {
        let b0 = s[0] as int;
        let b1 = if s.len() > 1 { s[1] as int } else { 0 };
        let b2 = if s.len() > 2 { s[2] as int } else { 0 };
        let c0 = base64_char(b0 / 4);
        let c1 = base64_char((b0 % 4) * 16 + b1 / 16);
        let c2 = base64_char((b1 % 16) * 4 + b2 / 64);
        let c3 = base64_char(b2 % 64);
        if s.len() == 1 {
            seq![c0, c1, '=', '=']
        } else if s.len() == 2 {
            seq![c0, c1, c2, '=']
        } else {
            seq![c0, c1, c2, c3] + base64(s.subrange(3, s.len() as int))
        }
    }
}

/// `base64::engine::general_purpose::STANDARD.encode`: the standard
/// alphabet with padding. Its length computation panics only above
/// `usize::MAX` characters, out of reach of a real slice, which the
/// precondition states.
#[verifier::external_body]
pub(crate) fn base64_encode(bytes: &[u8]) -> (r: String)
    requires
        bytes@.len() <= isize::MAX,
    ensures
        r@ == base64(bytes@),
{
    base64::engine::general_purpose::STANDARD.encode(bytes)
}

/// `data:{media_type};base64,{payload}`
pub open spec fn data_uri_text(media_type: Seq<char>, bytes: Seq<u8>) -> Seq<char> {
    "data:"@ + media_type + ";base64,"@ + base64(bytes)
}

/// Inline a payload as a `data:` URI.
pub fn data_uri(media_type: &str, bytes: &[u8]) -> (r: String)
    requires
        bytes@.len() <= isize::MAX,
    ensures
        r@ == data_uri_text(media_type@, bytes@),
{
    let mut s = String::from_str("data:");
    s.append(media_type);
    s.append(";base64,");
    s.append(base64_encode(bytes).as_str());
    s
}

/// `s` with ASCII capitals `A`–`Z` mapped to `a`–`z` and every other
/// character unchanged.
pub open spec fn ascii_lowercase(s: Seq<char>) -> Seq<char> {
    s.map_values(|c: char| if 'A' <= c && c <= 'Z' { ((c as u32) + 32) as char } else { c })
}

/// `s` with ASCII capitals mapped to lower case, as `str::to_ascii_lowercase`
/// does.
fn to_ascii_lowercase(s: &str) -> (r: String)
    ensures
        r@ == ascii_lowercase(s@),
{
    let cs = chars_of(s);
    let mut out: Vec<char> = Vec::new();
    let mut i: usize = 0;
    while i < cs.len()
        invariant
            i <= cs@.len(),
            cs@ == s@,
            out@ == ascii_lowercase(cs@.take(i as int)),
        decreases cs@.len() - i,
    {
        let c = cs[i];
        let l: char = if 'A' <= c && c <= 'Z' {
            ((c as u8) + 32) as char
        } else {
            c
        };
        out.push(l);
        i = i + 1;
        assert(cs@.take(i as int) == cs@.take(i - 1).push(c));
        assert(out@ =~= ascii_lowercase(cs@.take(i as int)));
    }
    assert(cs@.take(cs@.len() as int) == cs@);
    string_from_chars(out.as_slice())
}

/// The MIME type implied by a file extension, compared without regard to
/// ASCII case; PNG when there is no extension or it is not recognised.
pub open spec fn media_type_for_extension(ext: Option<Seq<char>>) -> Seq<char> {
    match ext {
        Some(e) => {
            let l = ascii_lowercase(e);
            if l == "png"@ {
                "image/png"@
            } else if l == "jpg"@ || l == "jpeg"@ {
                "image/jpeg"@
            } else if l == "webp"@ {
                "image/webp"@
            } else if l == "gif"@ {
                "image/gif"@
            } else {
                "image/png"@
            }
        },
        None => "image/png"@,
    }
}

/// The MIME type sent on the wire for an image file with this extension.
pub fn media_type_for(ext: Option<&str>) -> (r: &'static str)
    ensures
        r@ == media_type_for_extension(
            match ext {
                Some(e) => Some(e@),
                None => None,
            },
        ),
{
    match ext {
        None => "image/png",
        Some(e) => {
            let l = to_ascii_lowercase(e);
            if str_equal(l.as_str(), "png") {
                "image/png"
            } else if str_equal(l.as_str(), "jpg") || str_equal(l.as_str(), "jpeg") {
                "image/jpeg"
            } else if str_equal(l.as_str(), "webp") {
                "image/webp"
            } else if str_equal(l.as_str(), "gif") {
                "image/gif"
            } else {
                "image/png"
            }
        },
    }
}


/// Whether `e` spells a word in any mix of cases: at each place it holds
/// the word's character from `lower` or its capital from `upper`.
pub open spec fn spelled_in_any_case(e: Seq<char>, lower: Seq<char>, upper: Seq<char>) -> bool {
    &&& e.len() == lower.len()
    &&& e.len() == upper.len()
    &&& forall|i: int| 0 <= i < e.len() ==> e[i] == lower[i] || e[i] == upper[i]
}

proof fn lemma_lowercase_of_spelling(e: Seq<char>, lower: Seq<char>, upper: Seq<char>)
    requires
        spelled_in_any_case(e, lower, upper),
        forall|i: int| 0 <= i < lower.len() ==> !('A' <= #[trigger] lower[i] <= 'Z'),
        forall|i: int|
            0 <= i < upper.len() ==> 'A' <= #[trigger] upper[i] <= 'Z' && (((upper[i] as u32)
                + 32) as char) == lower[i],
    ensures
        ascii_lowercase(e) == lower,
{
    assert forall|i: int| 0 <= i < e.len() implies #[trigger] ascii_lowercase(e)[i] == lower[i] by {
        assert(e[i] == lower[i] || e[i] == upper[i]);
        assert(!('A' <= lower[i] <= 'Z'));
        assert('A' <= upper[i] <= 'Z' && (((upper[i] as u32) + 32) as char) == lower[i]);
    }
    assert(ascii_lowercase(e) =~= lower);
}

/// The MIME type depends on the extension only through its ASCII lower
/// case: two extensions that agree up to ASCII case get the same type.
pub proof fn lemma_media_type_ignores_case(e1: Seq<char>, e2: Seq<char>)
    requires
        ascii_lowercase(e1) == ascii_lowercase(e2),
    ensures
        media_type_for_extension(Some(e1)) == media_type_for_extension(Some(e2)),
{
}

/// Each recognised extension, written in any mix of ASCII cases, gives its
/// type: `jpg` and `jpeg` JPEG, `png` PNG, `webp` WebP, `gif` GIF; and no
/// extension at all gives PNG.
pub proof fn lemma_media_type_of_known_extensions(e: Seq<char>)
    ensures
        spelled_in_any_case(e, "jpg"@, "JPG"@) || spelled_in_any_case(e, "jpeg"@, "JPEG"@)
            ==> media_type_for_extension(Some(e)) == "image/jpeg"@,
        spelled_in_any_case(e, "png"@, "PNG"@) ==> media_type_for_extension(Some(e))
            == "image/png"@,
        spelled_in_any_case(e, "webp"@, "WEBP"@) ==> media_type_for_extension(Some(e))
            == "image/webp"@,
        spelled_in_any_case(e, "gif"@, "GIF"@) ==> media_type_for_extension(Some(e))
            == "image/gif"@,
        media_type_for_extension(None) == "image/png"@,
{
    reveal_strlit("jpg");
    reveal_strlit("JPG");
    reveal_strlit("jpeg");
    reveal_strlit("JPEG");
    reveal_strlit("png");
    reveal_strlit("PNG");
    reveal_strlit("webp");
    reveal_strlit("WEBP");
    reveal_strlit("gif");
    reveal_strlit("GIF");
    if spelled_in_any_case(e, "jpg"@, "JPG"@) {
        lemma_lowercase_of_spelling(e, "jpg"@, "JPG"@);
        assert("jpg"@[0] != "png"@[0]);
    }
    if spelled_in_any_case(e, "jpeg"@, "JPEG"@) {
        lemma_lowercase_of_spelling(e, "jpeg"@, "JPEG"@);
    }
    if spelled_in_any_case(e, "png"@, "PNG"@) {
        lemma_lowercase_of_spelling(e, "png"@, "PNG"@);
    }
    if spelled_in_any_case(e, "webp"@, "WEBP"@) {
        lemma_lowercase_of_spelling(e, "webp"@, "WEBP"@);
        assert("webp"@[0] != "jpeg"@[0]);
    }
    if spelled_in_any_case(e, "gif"@, "GIF"@) {
        lemma_lowercase_of_spelling(e, "gif"@, "GIF"@);
        assert("gif"@[0] != "png"@[0]);
        assert("gif"@[0] != "jpg"@[0]);
    }
}

} // verus!
