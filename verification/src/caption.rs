//! The pieces of the deterministic caption that the network-free mock
//! client writes: one bracketed part per input, joined behind a header.
//!
//! Floating-point readings (an OCR confidence, an audio duration) reach
//! these functions already rendered as text by the caller.

use vstd::prelude::*;
use vstd::string::*;

use crate::text::{char_prefix, debug_quoted, debug_string, decimal, decimal_string, join, joined, truncate, views};

verus! {

/// `[image {w}x{h} ~{t}tok]`
pub open spec fn image_part(w: nat, h: nat, t: nat) -> Seq<char> {
    "[image "@ + decimal(w) + "x"@ + decimal(h) + " ~"@ + decimal(t) + "tok]"@
}

/// `[ocr conf={conf}: {text truncated to 64 chars, Debug-quoted}]`
pub open spec fn ocr_part(conf: Seq<char>, text: Seq<char>) -> Seq<char> {
    "[ocr conf="@ + conf + ": "@ + debug_quoted(char_prefix(text, 64)) + "]"@
}

/// `[exif: {n} fields]`
pub open spec fn exif_part(n: nat) -> Seq<char> {
    "[exif: "@ + decimal(n) + " fields]"@
}

/// `[audio {duration}s: {transcript truncated to 64 chars, Debug-quoted}]`
pub open spec fn audio_part(duration: Seq<char>, transcript: Seq<char>) -> Seq<char> {
    "[audio "@ + duration + "s: "@ + debug_quoted(char_prefix(transcript, 64)) + "]"@
}

/// `{lead} {n} {noun}: {parts joined by sep}`
pub open spec fn caption_text(
    lead: Seq<char>,
    n: nat,
    noun: Seq<char>,
    parts: Seq<Seq<char>>,
    sep: Seq<char>,
) -> Seq<char> {
    lead + " "@ + decimal(n) + " "@ + noun + ": "@ + joined(parts, sep)
}

pub fn image_caption_part(w: u32, h: u32, t: u32) -> (r: String)
    ensures
        r@ == image_part(w as nat, h as nat, t as nat),
{
    let mut s = String::from_str("[image ");
    s.append(decimal_string(w as u64).as_str());
    s.append("x");
    s.append(decimal_string(h as u64).as_str());
    s.append(" ~");
    s.append(decimal_string(t as u64).as_str());
    s.append("tok]");
    s
}

pub fn ocr_caption_part(conf: &str, text: &str) -> (r: String)
    ensures
        r@ == ocr_part(conf@, text@),
{
    let mut s = String::from_str("[ocr conf=");
    s.append(conf);
    s.append(": ");
    s.append(debug_string(truncate(text, 64)).as_str());
    s.append("]");
    s
}

pub fn exif_caption_part(n: usize) -> (r: String)
    ensures
        r@ == exif_part(n as nat),
{
    let mut s = String::from_str("[exif: ");
    s.append(decimal_string(n as u64).as_str());
    s.append(" fields]");
    s
}

pub fn audio_caption_part(duration: &str, transcript: &str) -> (r: String)
    ensures
        r@ == audio_part(duration@, transcript@),
{
    let mut s = String::from_str("[audio ");
    s.append(duration);
    s.append("s: ");
    s.append(debug_string(truncate(transcript, 64)).as_str());
    s.append("]");
    s
}

pub fn caption(lead: &str, n: usize, noun: &str, parts: &Vec<String>, sep: &str) -> (r: String)
    ensures
        r@ == caption_text(lead@, n as nat, noun@, views(parts@), sep@),
{
    let mut s = String::from_str(lead);
    s.append(" ");
    s.append(decimal_string(n as u64).as_str());
    s.append(" ");
    s.append(noun);
    s.append(": ");
    s.append(join(parts, sep).as_str());
    s
}

} // verus!
