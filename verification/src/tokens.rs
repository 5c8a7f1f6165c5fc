//! Token-weight arithmetic: the coarse token estimates that a spectral
//! budget admits or refuses before any inference call is made.

use vstd::prelude::*;
use vstd::utf8::*;

use crate::text::chars_of;

verus! {

/// The byte length `str::len` reports for a string with these characters:
/// the length of its UTF-8 encoding.
pub open spec fn utf8_len(s: Seq<char>) -> usize {
    encode_utf8(s).len() as usize
}

/// Token weight of a text of `len` bytes: the byte count, taken as a `u32`,
/// divided by four and rounded up. The estimate table gives text as
/// "bytes / 4" without saying how a remainder counts; a trailing group of
/// fewer than four bytes still costs a token, so it is rounded up.
pub open spec fn text_tokens(len: usize) -> nat {
    (((len as u32) + 3) / 4) as nat
}

/// The characters of one metadata field: those of its key and its value.
pub open spec fn field_chars(field: (String, String)) -> nat {
    field.0@.len() + field.1@.len()
}

/// The characters of the first `n` fields of a metadata record.
pub open spec fn fields_chars_prefix(fields: Seq<(String, String)>, n: int) -> nat
    decreases n,
{
    if n <= 0 {
        0
    } else {
        fields_chars_prefix(fields, n - 1) + field_chars(fields[n - 1])
    }
}

/// The characters of all fields of a metadata record: the field count times
/// the average characters per field.
pub open spec fn fields_chars(fields: Seq<(String, String)>) -> nat {
    fields_chars_prefix(fields, fields.len() as int)
}

/// Token weight of a metadata record: field count times average characters
/// per field, divided by four (rounded down), with a floor of eight.
pub open spec fn exif_tokens(fields: Seq<(String, String)>) -> nat {
    if fields_chars(fields) / 4 < 8 {
        8
    } else {
        fields_chars(fields) / 4
    }
}

/// The metadata records whose weight fits a `u32`.
pub open spec fn exif_weight_fits(fields: Seq<(String, String)>) -> bool {
    fields_chars(fields) / 4 <= u32::MAX
}

proof fn lemma_chars_prefix_monotone(fields: Seq<(String, String)>, a: int, b: int)
    requires
        0 <= a <= b,
    ensures
        fields_chars_prefix(fields, a) <= fields_chars_prefix(fields, b),
    decreases b - a,
{
    if a < b {
        lemma_chars_prefix_monotone(fields, a, b - 1);
    }
}

/// Token weight of a text: its byte length as a `u32`, divided by four and
/// rounded up.
pub fn text_weight(s: &str) -> (r: u32)
    ensures
        r == text_tokens(utf8_len(s@)),
{
    let n: u32 = s.len() as u32;
    let q: u32 = n / 4;
    if n % 4 != 0 {
        q + 1
    } else {
        q
    }
}

/// The number of characters of one field, key and value together, when it
/// fits a `u64`.
fn field_char_count(field: &(String, String)) -> (r: Option<u64>)
    ensures
        match r {
            Some(n) => n == field_chars(*field),
            None => field_chars(*field) > u64::MAX,
        },
{
    let k: usize = chars_of(field.0.as_str()).len();
    let v: usize = chars_of(field.1.as_str()).len();
    (k as u64).checked_add(v as u64)
}

/// The characters of the first `n` fields, or `None` once they pass
/// `4 * (u32::MAX + 1)`, the point from which the weight no longer fits.
fn chars_up_to(fields: &Vec<(String, String)>, n: usize) -> (r: Option<u64>)
    requires
        n <= fields@.len(),
    ensures
        match r {
            Some(t) => t == fields_chars_prefix(fields@, n as int) && t / 4 <= u32::MAX,
            None => fields_chars_prefix(fields@, n as int) / 4 > u32::MAX,
        },
{
    let mut total: u64 = 0;
    let mut i: usize = 0;
    while i < n
        invariant
            i <= n <= fields@.len(),
            total == fields_chars_prefix(fields@, i as int),
            total / 4 <= u32::MAX,
        decreases n - i,
    {
        proof {
            lemma_chars_prefix_monotone(fields@, i + 1, n as int);
        }
        let c = match field_char_count(&fields[i]) {
            Some(c) => c,
            None => return None,
        };
        if c > 0x4_0000_0000 {
            return None;
        }
        let t: u64 = total + c;
        i = i + 1;
        if t / 4 > 0xFFFF_FFFF {
            return None;
        }
        total = t;
    }
    Some(total)
}

/// Whether a metadata record's weight can be computed.
pub fn exif_weight_computable(fields: &Vec<(String, String)>) -> (r: bool)
    ensures
        r == exif_weight_fits(fields@),
{
    chars_up_to(fields, fields.len()).is_some()
}

/// Token weight of a metadata record.
pub fn exif_weight(fields: &Vec<(String, String)>) -> (r: u32)
    requires
        exif_weight_fits(fields@),
    ensures
        r == exif_tokens(fields@),
{
    let total: u64 = match chars_up_to(fields, fields.len()) {
        Some(t) => t,
        None => 0,
    };
    let q: u64 = total / 4;
    if q < 8 {
        8
    } else {
        q as u32
    }
}

/// A metadata record never weighs less than eight tokens, and weighs a
/// quarter of its characters once that quarter reaches eight.
pub proof fn lemma_exif_weight_floor(fields: Seq<(String, String)>)
    ensures
        exif_tokens(fields) >= 8,
        fields_chars(fields) / 4 >= 8 ==> exif_tokens(fields) == fields_chars(fields) / 4,
{
}

} // verus!
