//! The decisions of the video-generation client: prompts trimmed to the
//! endpoint's limit at a word boundary, image and reference-video payloads
//! inlined as `data:` URIs under their byte caps, and the reading of a
//! polled task's status.

use vstd::prelude::*;
use vstd::string::*;

use crate::media::{capped_image, data_uri, data_uri_text};
use crate::pipeline::{cap_error, cap_image, VisionError};
use crate::text::{chars_of, is_white_space, is_whitespace, str_equal, string_from_chars};

verus! {

/// Byte cap of an inlined image: 3.33 MiB.
pub const IMAGE_LIMIT: usize = 3491758;

/// Longest side, in pixels, of an image re-encoded to fit `IMAGE_LIMIT`.
pub const IMAGE_MAX_SIDE: u32 = 2048;

/// Character limit of a prompt sent to the text and image routes.
pub const PROMPT_MAX: usize = 1000;

/// Default byte cap of a reference video: 15 MiB.
pub const DEFAULT_VIDEO_MAX_BYTES: usize = 15728640;

/// Configuration of a character-performance task: the motion and
/// expressions of the reference video are transferred onto the appearance
/// of the character image.
pub struct CharacterPerformanceConfig<'a> {
    /// Model id for the character-performance endpoint (`"act_two"`).
    pub model: &'a str,
    /// Encoded still image whose subject's appearance is transferred.
    pub character_image_bytes: &'a [u8],
    /// MIME type of `character_image_bytes`.
    pub character_media_type: &'static str,
    /// Encoded reference video supplying motion and expression.
    pub reference_video_bytes: &'a [u8],
    /// MIME type of `reference_video_bytes`, e.g. `"video/mp4"`.
    pub reference_media_type: &'static str,
    /// Output aspect ratio as `"WIDTH:HEIGHT"` in pixels.
    pub ratio: &'a str,
    /// Whether body movement is transferred as well as the face.
    pub body_control: bool,
    /// Expression intensity in `0..=10`.
    pub expression_intensity: u8,
    /// Content-moderation gate for public-figure resemblance.
    pub public_figure_threshold: &'a str,
}

/// Index of the last whitespace character among the first `n` characters
/// of `p`, or `-1` when there is none.
pub open spec fn last_whitespace(p: Seq<char>, n: int) -> int
    decreases n,
{
    if n <= 0 {
        -1
    } else if is_white_space(p[n - 1]) {
        n - 1
    } else {
        last_whitespace(p, n - 1)
    }
}

/// A prompt cut to at most `max_chars` characters: unchanged when it fits;
/// otherwise its first `max_chars - 1` characters, cut back to before their
/// last whitespace character (if any), followed by an ellipsis.
pub open spec fn truncated_prompt(s: Seq<char>, max_chars: nat) -> Seq<char> {
    if s.len() <= max_chars {
        s
    } else {
        let take: nat = if max_chars >= 1 { (max_chars - 1) as nat } else { 0 };
        let prefix = s.take(take as int);
        let w = last_whitespace(prefix, prefix.len() as int);
        let cut = if w >= 0 { w } else { prefix.len() as int };
        prefix.take(cut).push('…')
    }
}

proof fn lemma_last_whitespace_bounds(p: Seq<char>, n: int)
    requires
        0 <= n <= p.len(),
    ensures
        -1 <= last_whitespace(p, n) < n,
        last_whitespace(p, n) >= 0 ==> is_white_space(p[last_whitespace(p, n)]),
    decreases n,
{
    if n > 0 && !is_white_space(p[n - 1]) {
        lemma_last_whitespace_bounds(p, n - 1);
    }
}

/// Cut a prompt to the endpoint's character limit at a word boundary.
pub fn truncate_prompt(s: &str, max_chars: usize) -> (r: String)
    ensures
        r@ == truncated_prompt(s@, max_chars as nat),
{
    let total: usize = s.unicode_len();
    if total <= max_chars {
        return String::from_str(s);
    }
    let take: usize = max_chars.saturating_sub(1);
    let cs = chars_of(s);
    let mut k: usize = take;
    while k > 0 && !is_whitespace(cs[k - 1])
        invariant
            k <= take < cs@.len(),
            last_whitespace(cs@.take(take as int), take as int) == last_whitespace(
                cs@.take(take as int),
                k as int,
            ),
        decreases k,
    {
        assert(cs@.take(take as int)[k - 1] == cs@[k - 1]);
        k = k - 1;
    }
    let ghost prefix = cs@.take(take as int);
    let cut: usize = if k > 0 {
        assert(prefix[k - 1] == cs@[k - 1]);
        k - 1
    } else {
        take
    };
    let kept = vstd::slice::slice_subrange(cs.as_slice(), 0, cut);
    let mut out = string_from_chars(kept);
    proof {
        reveal_strlit("…");
        assert(prefix.take(cut as int) =~= cs@.subrange(0, cut as int));
    }
    out.append("…");
    out
}

/// A character run of decimal digits (`0`–`9`).
pub open spec fn all_digits(s: Seq<char>) -> bool {
    forall|i: int| 0 <= i < s.len() ==> '0' <= #[trigger] s[i] && s[i] <= '9'
}

/// The value of a run of decimal digits.
pub open spec fn digits_value(s: Seq<char>) -> nat
    decreases s.len(),
{
    if s.len() == 0 {
        0
    } else {
        digits_value(s.drop_last()) * 10 + ((s.last() as u32) - 48) as nat
    }
}

/// What `str::parse::<usize>` accepts: an optional `+` followed by one or
/// more decimal digits whose value fits a `usize`.
pub open spec fn parsed_usize(s: Seq<char>) -> Option<nat> {
    let d = if s.len() > 0 && s[0] == '+' {
        s.drop_first()
    } else {
        s
    };
    if d.len() > 0 && all_digits(d) && digits_value(d) <= usize::MAX {
        Some(digits_value(d))
    } else {
        None
    }
}

/// A longer run of digits is worth no less than any of its prefixes.
proof fn lemma_digits_value_prefix(t: Seq<char>, n: int)
    requires
        0 <= n <= t.len(),
        all_digits(t),
    ensures
        digits_value(t.take(n)) <= digits_value(t),
    decreases t.len() - n,
{
    if n == t.len() {
        assert(t.take(n) =~= t);
    } else {
        let u = t.drop_last();
        assert(all_digits(u)) by {
            assert forall|i: int| 0 <= i < u.len() implies '0' <= #[trigger] u[i] && u[i] <= '9' by {
                assert(u[i] == t[i]);
            }
        }
        lemma_digits_value_prefix(u, n);
        assert(u.take(n) =~= t.take(n));
        assert('0' <= t[t.len() - 1]);
    }
}

/// The value of the decimal number `s` as `str::parse::<usize>` reads it:
/// an optional `+`, then one or more digits, with `None` for anything
/// else and for a value past `usize::MAX`.
fn parse_usize(s: &str) -> (r: Option<usize>)
    ensures
        match r {
            Some(v) => parsed_usize(s@) == Some(v as nat),
            None => parsed_usize(s@) is None,
        },
{
    let cs = chars_of(s);
    let start: usize = if cs.len() > 0 && cs[0] == '+' {
        1
    } else {
        0
    };
    let ghost d = cs@.subrange(start as int, cs@.len() as int);
    assert(d =~= if s@.len() > 0 && s@[0] == '+' {
        s@.drop_first()
    } else {
        s@
    });
    if start >= cs.len() {
        return None;
    }
    let mut value: usize = 0;
    let mut i: usize = start;
    while i < cs.len()
        invariant
            start <= i <= cs@.len(),
            cs@ == s@,
            d == cs@.subrange(start as int, cs@.len() as int),
            d == if s@.len() > 0 && s@[0] == '+' {
                s@.drop_first()
            } else {
                s@
            },
            all_digits(cs@.subrange(start as int, i as int)),
            value == digits_value(cs@.subrange(start as int, i as int)),
        decreases cs@.len() - i,
    {
        let c = cs[i];
        let ghost p = cs@.subrange(start as int, i as int);
        let ghost q = cs@.subrange(start as int, i + 1);
        assert(q.drop_last() =~= p);
        assert(q.last() == c);
        assert(d[i - start] == c);
        if c < '0' || c > '9' {
            return None;
        }
        assert(all_digits(q)) by {
            assert forall|k: int| 0 <= k < q.len() implies '0' <= #[trigger] q[k] && q[k] <= '9' by {
                if k < p.len() {
                    assert(q[k] == p[k]);
                }
            }
        }
        let digit: usize = ((c as u32) - 48) as usize;
        let next = match value.checked_mul(10) {
            Some(m) => m.checked_add(digit),
            None => None,
        };
        match next {
            Some(v) => {
                value = v;
            },
            None => {
                proof {
                    if all_digits(d) {
                        assert(d.take(q.len() as int) =~= q);
                        lemma_digits_value_prefix(d, q.len() as int);
                    }
                }
                return None;
            },
        }
        i = i + 1;
    }
    assert(cs@.subrange(start as int, i as int) =~= d);
    Some(value)
}

/// The reference-video byte cap: the configured setting when it parses as
/// a `usize`, otherwise 15 MiB.
pub fn video_byte_cap(setting: Option<&str>) -> (r: usize)
    ensures
        r == match setting {
            Some(s) => match parsed_usize(s@) {
                Some(v) => v,
                None => DEFAULT_VIDEO_MAX_BYTES as nat,
            },
            None => DEFAULT_VIDEO_MAX_BYTES as nat,
        },
{
    match setting {
        Some(s) => match parse_usize(s) {
            Some(v) => v,
            None => DEFAULT_VIDEO_MAX_BYTES,
        },
        None => DEFAULT_VIDEO_MAX_BYTES,
    }
}

/// The prompt text and inlined image of an image-to-video task: the image
/// capped at `IMAGE_LIMIT` (re-encoded to `IMAGE_MAX_SIDE` when over), as a
/// `data:` URI, and the prompt cut to `PROMPT_MAX` characters.
pub fn image_to_video_inputs(prompt: &str, image_bytes: &[u8], media_type: &'static str) -> (r:
    Result<(String, String), VisionError>)
    ensures
        match capped_image(image_bytes@, media_type@, IMAGE_LIMIT, IMAGE_MAX_SIDE) {
            Some((b, m)) => r matches Ok((text, uri)) && text@ == truncated_prompt(
                prompt@,
                PROMPT_MAX as nat,
            ) && uri@ == data_uri_text(m, b),
            None => r matches Err(e) && cap_error(image_bytes@, IMAGE_LIMIT, IMAGE_MAX_SIDE, "runway", e),
        },
{
    proof {
        reveal_strlit("runway");
    }
    let (capped, mime) = match cap_image(
        image_bytes,
        media_type,
        IMAGE_LIMIT,
        IMAGE_MAX_SIDE,
        "runway",
    ) {
        Ok(c) => c,
        Err(e) => return Err(e),
    };
    let uri = data_uri(mime, capped.as_slice());
    assert(uri@ == data_uri_text(mime@, capped.bytes()));
    let text = truncate_prompt(prompt, PROMPT_MAX);
    Ok((text, uri))
}

/// The inlined character image and reference video of a
/// character-performance task. The character image is capped like an
/// image-to-video image; a reference video longer than `max_video` bytes
/// is refused as `OversizedInput`.
pub fn character_performance_inputs(cfg: &CharacterPerformanceConfig, max_video: usize) -> (r:
    Result<(String, String), VisionError>)
    requires
        cfg.reference_video_bytes@.len() <= isize::MAX,
    ensures
        match capped_image(
            cfg.character_image_bytes@,
            cfg.character_media_type@,
            IMAGE_LIMIT,
            IMAGE_MAX_SIDE,
        ) {
            Some((b, m)) => if cfg.reference_video_bytes@.len() <= max_video {
                r matches Ok((character, reference)) && character@ == data_uri_text(m, b)
                    && reference@ == data_uri_text(
                    cfg.reference_media_type@,
                    cfg.reference_video_bytes@,
                )
            } else {
                r matches Err(VisionError::OversizedInput { kind, bytes, cap }) && kind@
                    == "reference_video"@ && bytes == cfg.reference_video_bytes@.len() && cap
                    == max_video
            },
            None => r matches Err(e) && cap_error(
                cfg.character_image_bytes@,
                IMAGE_LIMIT,
                IMAGE_MAX_SIDE,
                "runway",
                e,
            ),
        },
{
    proof {
        reveal_strlit("reference_video");
        reveal_strlit("runway");
    }
    let (capped, mime) = match cap_image(
        cfg.character_image_bytes,
        cfg.character_media_type,
        IMAGE_LIMIT,
        IMAGE_MAX_SIDE,
        "runway",
    ) {
        Ok(c) => c,
        Err(e) => return Err(e),
    };
    let character = data_uri(mime, capped.as_slice());
    assert(character@ == data_uri_text(mime@, capped.bytes()));
    if cfg.reference_video_bytes.len() > max_video {
        return Err(
            VisionError::OversizedInput {
                kind: "reference_video",
                bytes: cfg.reference_video_bytes.len(),
                cap: max_video,
            },
        );
    }
    let reference = data_uri(cfg.reference_media_type, cfg.reference_video_bytes);
    Ok((character, reference))
}

/// What one poll of a task tells the waiting loop.
pub enum PollStep {
    /// The task succeeded: stop and hand the task back.
    Succeeded,
    /// The task failed or was cancelled: stop with this message.
    Failed(String),
    /// Any other state (including an unknown or missing one): keep polling.
    Pending,
    /// The wait outlasted its deadline: stop with this message.
    TimedOut(String),
}

/// `task {id}: {status} ({failure})`
pub open spec fn failed_message(task_id: Seq<char>, status: Seq<char>, failure: Seq<char>) -> Seq<
    char,
> {
    "task "@ + task_id + ": "@ + status + " ("@ + failure + ")"@
}

/// Read a polled task's status: `SUCCEEDED` ends the wait, `FAILED` and
/// `CANCELLED` end it with an error naming the task, the status and the
/// failure reason (empty when there is none), anything else keeps waiting.
pub fn poll_step(task_id: &str, status: Option<&str>, failure: Option<&str>) -> (r: PollStep)
    ensures
        r !is TimedOut,
        match status {
            Some(st) => {
                &&& (st@ == "SUCCEEDED"@ <==> r is Succeeded)
                &&& ((st@ == "FAILED"@ || st@ == "CANCELLED"@) <==> r is Failed)
                &&& r matches PollStep::Failed(m) ==> m@ == failed_message(
                    task_id@,
                    st@,
                    match failure {
                        Some(f) => f@,
                        None => Seq::empty(),
                    },
                )
            },
            None => r is Pending,
        },
{
    proof {
        reveal_strlit("SUCCEEDED");
        reveal_strlit("FAILED");
        reveal_strlit("CANCELLED");
    }
    match status {
        None => PollStep::Pending,
        Some(st) => {
            if str_equal(st, "SUCCEEDED") {
                assert("SUCCEEDED"@[0] != "CANCELLED"@[0]);
                PollStep::Succeeded
            } else if str_equal(st, "FAILED") || str_equal(st, "CANCELLED") {
                let mut m = String::from_str("task ");
                m.append(task_id);
                m.append(": ");
                m.append(st);
                m.append(" (");
                match failure {
                    Some(f) => m.append(f),
                    None => {},
                }
                m.append(")");
                PollStep::Failed(m)
            } else {
                PollStep::Pending
            }
        },
    }
}

/// How long a task is waited for: ten minutes, in nanoseconds.
pub const WAIT_DEADLINE_NANOS: u128 = 600_000_000_000;

/// `task {id}: timeout after 600s`
pub open spec fn timeout_message(task_id: Seq<char>) -> Seq<char> {
    "task "@ + task_id + ": timeout after 600s"@
}

/// One step of waiting for a task, `elapsed_nanos` after the wait began:
/// past the ten-minute deadline the wait ends with a timeout naming the
/// task; before it, the polled `status` and `failure` decide as in
/// `poll_step`.
pub fn wait_step(task_id: &str, elapsed_nanos: u128, status: Option<&str>, failure: Option<&str>) -> (r:
    PollStep)
    ensures
        elapsed_nanos > WAIT_DEADLINE_NANOS ==> (r matches PollStep::TimedOut(m) && m@
            == timeout_message(task_id@)),
        elapsed_nanos <= WAIT_DEADLINE_NANOS ==> match status {
            Some(st) => {
                &&& (st@ == "SUCCEEDED"@ <==> r is Succeeded)
                &&& ((st@ == "FAILED"@ || st@ == "CANCELLED"@) <==> r is Failed)
                &&& r !is TimedOut
                &&& r matches PollStep::Failed(m) ==> m@ == failed_message(
                    task_id@,
                    st@,
                    match failure {
                        Some(f) => f@,
                        None => Seq::empty(),
                    },
                )
            },
            None => r is Pending,
        },
{
    if elapsed_nanos > WAIT_DEADLINE_NANOS {
        let mut m = String::from_str("task ");
        m.append(task_id);
        m.append(": timeout after 600s");
        PollStep::TimedOut(m)
    } else {
        poll_step(task_id, status, failure)
    }
}

/// A cut prompt never exceeds the limit (one character when the limit is
/// zero, for the ellipsis), and what it keeps of the prompt is a prefix of
/// it; a prompt within the limit is sent as it is.
pub proof fn lemma_truncated_prompt_fits(s: Seq<char>, max_chars: nat)
    ensures
        truncated_prompt(s, max_chars).len() <= if max_chars >= 1 {
            max_chars
        } else {
            1
        },
        s.len() <= max_chars ==> truncated_prompt(s, max_chars) == s,
        s.len() > max_chars ==> {
            let r = truncated_prompt(s, max_chars);
            &&& r.last() == '…'
            &&& r.drop_last() == s.take(r.len() - 1)
        },
{
    if s.len() > max_chars {
        let take: nat = if max_chars >= 1 { (max_chars - 1) as nat } else { 0 };
        let prefix = s.take(take as int);
        lemma_last_whitespace_bounds(prefix, prefix.len() as int);
        let r = truncated_prompt(s, max_chars);
        let w = last_whitespace(prefix, prefix.len() as int);
        let cut = if w >= 0 { w } else { prefix.len() as int };
        assert(r.drop_last() =~= prefix.take(cut));
        assert(prefix.take(cut) =~= s.take(cut));
    }
}

} // verus!
