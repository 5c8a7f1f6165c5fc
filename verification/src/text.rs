//! Small string facilities used across the library, each stated over the
//! `Seq<char>` view of its arguments.

use vstd::prelude::*;
use vstd::string::*;

use crate::runway::{all_digits, digits_value};

verus! {

/// `<str as PartialEq>::eq`: std documents string equality as equality of
/// the contents, so the result is true exactly when both views agree.
#[verifier::external_body]
pub(crate) fn str_equal(a: &str, b: &str) -> (r: bool)
    ensures
        r == (a@ == b@),
{
    a == b
}

/// The characters of a string, in order (`str::chars` collected into a
/// vector): the vector holds exactly the string's characters.
#[verifier::external_body]
pub(crate) fn chars_of(s: &str) -> (r: Vec<char>)
    ensures
        r@ == s@,
{
    s.chars().collect()
}

/// A string made of the given characters, in order (`String`'s
/// `FromIterator<char>`): the string's characters are exactly these.
#[verifier::external_body]
pub(crate) fn string_from_chars(cs: &[char]) -> (r: String)
    ensures
        r@ == cs@,
{
    cs.iter().collect()
}

/// Whether a character has the Unicode `White_Space` property, which is how
/// std documents `char::is_whitespace`.
pub open spec fn is_white_space(c: char) -> bool {
    let u = c as u32;
    ||| 0x09 <= u <= 0x0D
    ||| u == 0x20
    ||| u == 0x85
    ||| u == 0xA0
    ||| u == 0x1680
    ||| 0x2000 <= u <= 0x200A
    ||| u == 0x2028
    ||| u == 0x2029
    ||| u == 0x202F
    ||| u == 0x205F
    ||| u == 0x3000
}

/// Whether a character is white space, as `char::is_whitespace` decides:
/// the code points of the Unicode `White_Space` property.
pub(crate) fn is_whitespace(c: char) -> (r: bool)
    ensures
        r == is_white_space(c),
{
    let u = c as u32;
    (0x09 <= u && u <= 0x0D) || u == 0x20 || u == 0x85 || u == 0xA0 || u == 0x1680 || (0x2000 <= u
        && u <= 0x200A) || u == 0x2028 || u == 0x2029 || u == 0x202F || u == 0x205F || u == 0x3000
}

/// The decimal digit `d` as a character.
pub open spec fn digit_char(d: nat) -> char {
    if d == 0 {
        '0'
    } else if d == 1 {
        '1'
    } else if d == 2 {
        '2'
    } else if d == 3 {
        '3'
    } else if d == 4 {
        '4'
    } else if d == 5 {
        '5'
    } else if d == 6 {
        '6'
    } else if d == 7 {
        '7'
    } else if d == 8 {
        '8'
    } else {
        '9'
    }
}

/// The decimal rendering of a natural number, without sign or leading
/// zeros, as `Display` writes an unsigned integer.
pub open spec fn decimal(n: nat) -> Seq<char>
    decreases n,
{
    if n < 10 {
        seq![digit_char(n)]
    } else {
        decimal(n / 10).push(digit_char(n % 10))
    }
}

fn digit_str(d: u64) -> (r: &'static str)
    requires
        d < 10,
    ensures
        r@ == seq![digit_char(d as nat)],
{
    proof {
        reveal_strlit("0");
        reveal_strlit("1");
        reveal_strlit("2");
        reveal_strlit("3");
        reveal_strlit("4");
        reveal_strlit("5");
        reveal_strlit("6");
        reveal_strlit("7");
        reveal_strlit("8");
        reveal_strlit("9");
    }
    if d == 0 {
        "0"
    } else if d == 1 {
        "1"
    } else if d == 2 {
        "2"
    } else if d == 3 {
        "3"
    } else if d == 4 {
        "4"
    } else if d == 5 {
        "5"
    } else if d == 6 {
        "6"
    } else if d == 7 {
        "7"
    } else if d == 8 {
        "8"
    } else {
        "9"
    }
}

/// The decimal rendering of `n`.
pub fn decimal_string(n: u64) -> (r: String)
    ensures
        r@ == decimal(n as nat),
    decreases n,
{
    if n < 10 {
        String::from_str(digit_str(n))
    } else {
        let mut s = decimal_string(n / 10);
        s.append(digit_str(n % 10));
        s
    }
}

/// What `Debug` writes for a string slice: the text between double quotes,
/// with quotes, backslashes and non-printable characters escaped.
pub uninterp spec fn debug_quoted(s: Seq<char>) -> Seq<char>;

/// `<str as Debug>::fmt`, rendered through `format!("{:?}")`. The result is
/// named, not spelled out: it depends on the text alone.
#[verifier::external_body]
pub(crate) fn debug_string(s: &str) -> (r: String)
    ensures
        r@ == debug_quoted(s@),
{
    format!("{:?}", s)
}

/// The parts, in order, with `sep` between neighbours.
pub open spec fn joined(parts: Seq<Seq<char>>, sep: Seq<char>) -> Seq<char>
    decreases parts.len(),
{
    if parts.len() == 0 {
        Seq::empty()
    } else if parts.len() == 1 {
        parts[0]
    } else {
        joined(parts.drop_last(), sep) + sep + parts.last()
    }
}

/// The views of a sequence of strings.
pub open spec fn views(parts: Seq<String>) -> Seq<Seq<char>> {
    parts.map_values(|p: String| p@)
}

/// Concatenate `parts` with `sep` between neighbours (`[String]::join`).
pub fn join(parts: &Vec<String>, sep: &str) -> (r: String)
    ensures
        r@ == joined(views(parts@), sep@),
{
    let mut out = String::new();
    let mut i: usize = 0;
    while i < parts.len()
        invariant
            i <= parts@.len(),
            out@ == joined(views(parts@).take(i as int), sep@),
        decreases parts@.len() - i,
    {
        let ghost before = views(parts@).take(i as int);
        if i > 0 {
            out.append(sep);
        }
        out.append(parts[i].as_str());
        proof {
            let after = views(parts@).take(i + 1);
            assert(after.drop_last() =~= before);
            assert(after.last() == parts@[i as int]@);
            if i == 0 {
                assert(after =~= seq![parts@[0]@]);
            }
        }
        i = i + 1;
    }
    assert(views(parts@).take(parts@.len() as int) =~= views(parts@));
    out
}

/// The first `n` characters of `s`, or all of it when it is shorter.
pub open spec fn char_prefix(s: Seq<char>, n: nat) -> Seq<char> {
    if n < s.len() {
        s.take(n as int)
    } else {
        s
    }
}

/// The first `n` characters of `s` (all of `s` when it has fewer), as a
/// borrowed slice of it.
pub fn truncate(s: &str, n: usize) -> (r: &str)
    ensures
        r@ == char_prefix(s@, n as nat),
{
    let len: usize = s.unicode_len();
    if n < len {
        s.substring_char(0, n)
    } else {
        s
    }
}

/// `s` with every leading whitespace character removed.
pub open spec fn trim_start(s: Seq<char>) -> Seq<char>
    decreases s.len(),
{
    if s.len() > 0 && is_white_space(s[0]) {
        trim_start(s.drop_first())
    } else {
        s
    }
}

/// `s` with every trailing whitespace character removed.
pub open spec fn trim_end(s: Seq<char>) -> Seq<char>
    decreases s.len(),
{
    if s.len() > 0 && is_white_space(s.last()) {
        trim_end(s.drop_last())
    } else {
        s
    }
}

/// `s` with leading and trailing whitespace removed, as `str::trim` does.
pub open spec fn trimmed(s: Seq<char>) -> Seq<char> {
    trim_end(trim_start(s))
}

proof fn lemma_trim_start_skip(s: Seq<char>, i: int)
    requires
        0 <= i <= s.len(),
        forall|j: int| 0 <= j < i ==> is_white_space(#[trigger] s[j]),
    ensures
        trim_start(s) == trim_start(s.subrange(i, s.len() as int)),
    decreases i,
{
    if i > 0 {
        assert(s.drop_first().subrange(i - 1, s.drop_first().len() as int) =~= s.subrange(
            i,
            s.len() as int,
        ));
        lemma_trim_start_skip(s.drop_first(), i - 1);
    } else {
        assert(s.subrange(0, s.len() as int) =~= s);
    }
}

proof fn lemma_trim_end_skip(s: Seq<char>, k: int)
    requires
        0 <= k <= s.len(),
        forall|j: int| k <= j < s.len() ==> is_white_space(#[trigger] s[j]),
    ensures
        trim_end(s) == trim_end(s.subrange(0, k)),
    decreases s.len() - k,
{
    if k < s.len() {
        assert(s.drop_last().subrange(0, k) =~= s.subrange(0, k));
        lemma_trim_end_skip(s.drop_last(), k);
    } else {
        assert(s.subrange(0, k) =~= s);
    }
}

/// `s` with leading and trailing whitespace removed.
pub fn trim(s: &str) -> (r: String)
    ensures
        r@ == trimmed(s@),
{
    let cs = chars_of(s);
    let n: usize = cs.len();
    let mut a: usize = 0;
    while a < n && is_whitespace(cs[a])
        invariant
            a <= n,
            n == cs@.len(),
            forall|j: int| 0 <= j < a ==> is_white_space(#[trigger] cs@[j]),
        decreases n - a,
    {
        a = a + 1;
    }
    proof {
        lemma_trim_start_skip(cs@, a as int);
    }
    let ghost rest = cs@.subrange(a as int, n as int);
    assert(trim_start(cs@) == rest) by {
        if a < n {
            assert(rest[0] == cs@[a as int]);
        }
    }
    let mut b: usize = n;
    while b > a && is_whitespace(cs[b - 1])
        invariant
            a <= b <= n,
            n == cs@.len(),
            forall|j: int| b <= j < n ==> is_white_space(#[trigger] cs@[j]),
        decreases b - a,
    {
        b = b - 1;
    }
    proof {
        let m = (b - a) as int;
        assert forall|j: int| m <= j < rest.len() implies is_white_space(#[trigger] rest[j]) by {
            assert(rest[j] == cs@[a + j]);
        }
        lemma_trim_end_skip(rest, m);
        assert(rest.subrange(0, m) =~= cs@.subrange(a as int, b as int));
        if m > 0 {
            assert(rest.subrange(0, m).last() == cs@[b - 1]);
        }
    }
    let slice = vstd::slice::slice_subrange(cs.as_slice(), a, b);
    string_from_chars(slice)
}


proof fn lemma_digit_char(m: nat)
    requires
        m < 10,
    ensures
        '0' <= digit_char(m) <= '9',
        (digit_char(m) as u32) - 48 == m,
        m > 0 ==> digit_char(m) != '0',
{
}

/// `decimal` writes a number in base ten: a non-empty run of digits, with
/// no leading zero unless the number is zero, whose value is the number.
pub proof fn lemma_decimal_value(n: nat)
    ensures
        decimal(n).len() > 0,
        all_digits(decimal(n)),
        digits_value(decimal(n)) == n,
        n > 0 ==> decimal(n)[0] != '0',
        decimal(n).len() > 1 ==> decimal(n)[0] != '0',
    decreases n,
{
    let d = decimal(n);
    if n < 10 {
        lemma_digit_char(n);
        assert(d.drop_last() =~= Seq::<char>::empty());
        assert(digits_value(d.drop_last()) == 0);
        assert(d.last() == digit_char(n));
    } else {
        lemma_decimal_value(n / 10);
        lemma_digit_char(n % 10);
        assert(d.drop_last() =~= decimal(n / 10));
        assert forall|i: int| 0 <= i < d.len() implies '0' <= #[trigger] d[i] && d[i] <= '9' by {
            if i < d.len() - 1 {
                assert(d[i] == decimal(n / 10)[i]);
            }
        }
        assert(d[0] == decimal(n / 10)[0]);
        assert(d.last() == digit_char(n % 10));
        assert(digits_value(d) == digits_value(decimal(n / 10)) * 10 + (n % 10));
        assert(n == (n / 10) * 10 + n % 10);
    }
}

/// Where part `k` sits in its join: every part appears, whole and in
/// order, at an offset that no earlier part or separator overlaps.
pub proof fn lemma_joined_part_at(parts: Seq<Seq<char>>, sep: Seq<char>, k: int) -> (o: int)
    requires
        0 <= k < parts.len(),
    ensures
        0 <= o,
        o + parts[k].len() <= joined(parts, sep).len(),
        joined(parts, sep).subrange(o, o + parts[k].len()) == parts[k],
    decreases parts.len(),
{
    if parts.len() == 1 {
        assert(joined(parts, sep).subrange(0, parts[0].len() as int) =~= parts[0]);
        0
    } else if k == parts.len() - 1 {
        let head = joined(parts.drop_last(), sep) + sep;
        let o = head.len() as int;
        assert(joined(parts, sep).subrange(o, o + parts[k].len()) =~= parts[k]);
        o
    } else {
        let o = lemma_joined_part_at(parts.drop_last(), sep, k);
        let whole = joined(parts, sep);
        let front = joined(parts.drop_last(), sep);
        assert(parts.drop_last()[k] == parts[k]);
        assert(whole.subrange(o, o + parts[k].len()) =~= front.subrange(o, o + parts[k].len()));
        o
    }
}
} // verus!
