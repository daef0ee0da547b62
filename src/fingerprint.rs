//! The fingerprint of the latest post: the version in the first post heading
//! found in a page.
use vstd::prelude::*;

use crate::topic::opt_text;

verus! {

/// The page whose first post heading gives the fingerprint.
pub const FRONT_PAGE_URL: &'static str = "https://alt-f4.blog/";

/// The pattern of a post heading: `Alt-F4 #`, a version made of digits and
/// dots (the first group), and the title up to the next `<`.
pub const HEADING_PATTERN: &'static str = r#"Alt\-F4 \#([0-9\.]+)([^<]+)"#;

/// Why a poll produced no fingerprint.
#[derive(Debug, Clone, PartialEq, Eq)]
pub enum PollError {
    /// The page could not be fetched or read.
    Fetch(String),
    /// The page holds no post heading.
    NoPost,
}

/// The text that opens every post heading.
pub open spec fn heading_prefix() -> Seq<char> {
    "Alt-F4 #"@
}

/// An ASCII digit or a dot.
pub open spec fn is_version_char(c: char) -> bool {
    (0x30 <= c as u32 && c as u32 <= 0x39) || c == '.'
}

/// Whether a post heading starts at `i` in `s`: the prefix, a version
/// character, and one more character that is not `<`.
pub open spec fn heading_at(s: Seq<char>, i: int) -> bool {
    &&& 0 <= i
    &&& i + 10 <= s.len()
    &&& s.subrange(i, i + 8) == heading_prefix()
    &&& is_version_char(s[i + 8])
    &&& s[i + 9] != '<'
}

/// Where the run of version characters that starts at `k` in `s` ends.
pub open spec fn version_run_end(s: Seq<char>, k: int) -> int
    decreases s.len() - k,
{
    if 0 <= k < s.len() && is_version_char(s[k]) {
        version_run_end(s, k + 1)
    } else {
        k
    }
}

/// The version of the heading that starts at `i` in `s`: the run of version
/// characters after the prefix, less its last character where nothing but a
/// `<` or the end of `s` follows the run (the title takes at least one
/// character).
pub open spec fn version_at(s: Seq<char>, i: int) -> Seq<char> {
    let p = version_run_end(s, i + 8);
    if p < s.len() && s[p] != '<' {
        s.subrange(i + 8, p)
    } else {
        s.subrange(i + 8, p - 1)
    }
}

/// Where the first post heading in `s` at or after `i` starts.
pub open spec fn heading_start_from(s: Seq<char>, i: int) -> Option<int>
    decreases s.len() - i,
{
    if i < 0 || i + 10 > s.len() {
        None
    } else if heading_at(s, i) {
        Some(i)
    } else {
        heading_start_from(s, i + 1)
    }
}

/// The version in the first post heading of `s`, which is the first group of
/// what the heading pattern matches first.
pub open spec fn first_version(s: Seq<char>) -> Option<Seq<char>> {
    match heading_start_from(s, 0) {
        Some(i) => Some(version_at(s, i)),
        None => None,
    }
}

/// The run of version characters from `k` holds version characters only.
proof fn version_run_bounds(s: Seq<char>, k: int)
    requires
        0 <= k <= s.len(),
    ensures
        k <= version_run_end(s, k) <= s.len(),
        forall|j: int| k <= j < version_run_end(s, k) ==> is_version_char(s[j]),
        version_run_end(s, k) < s.len() ==> !is_version_char(s[version_run_end(s, k)]),
    decreases s.len() - k,
{
    if k < s.len() && is_version_char(s[k]) {
        version_run_bounds(s, k + 1);
    }
}

proof fn heading_start_bounds(s: Seq<char>, i: int)
    requires
        0 <= i,
    ensures
        heading_start_from(s, i) matches Some(h) ==> heading_at(s, h),
    decreases s.len() - i,
{
    if i + 10 <= s.len() && !heading_at(s, i) {
        heading_start_bounds(s, i + 1);
    }
}

/// A fingerprint is never empty and holds digits and dots only.
pub proof fn fingerprint_shape(page: Seq<char>)
    ensures
        first_version(page) matches Some(v) ==> v.len() >= 1 && forall|k: int|
            0 <= k < v.len() ==> #[trigger] is_version_char(v[k]),
{
    heading_start_bounds(page, 0);
    if let Some(i) = heading_start_from(page, 0) {
        version_run_bounds(page, i + 8);
        let v = version_at(page, i);
        assert forall|k: int| 0 <= k < v.len() implies #[trigger] is_version_char(v[k]) by {
            assert(v[k] == page[i + 8 + k]);
        }
    }
}

/// Relies on `regex::Regex::new`, which compiles `pattern` (a valid pattern of
/// a few states, so it succeeds), and on `regex::Regex::captures`, whose result
/// is the leftmost-first match of the compiled pattern in `text`; its first
/// group is the version. Both repetitions being greedy, the version is the
/// whole run of digits and dots unless the title would then be empty.
#[verifier::external_body]
fn find_first_version(pattern: &str, text: &str) -> (r: Result<Option<String>, String>)
    requires
        pattern@ == HEADING_PATTERN@,
    ensures
        r is Ok,
        r is Ok ==> opt_text(r->Ok_0) == first_version(text@),
{
    let re = regex::Regex::new(pattern).map_err(|e| e.to_string())?;
    Ok(re.captures(text).and_then(|c| c.get(1)).map(|m| m.as_str().to_owned()))
}

/// The fingerprint of the latest post in `page`: the version in its first post
/// heading.
pub fn extract_fingerprint(page: &str) -> (r: Result<String, PollError>)
    ensures
        match first_version(page@) {
            Some(v) => r matches Ok(f) && f@ == v,
            None => r == Err::<String, PollError>(PollError::NoPost),
        },
{
    match find_first_version(HEADING_PATTERN, page) {
        Ok(Some(f)) => Ok(f),
        _ => Err(PollError::NoPost),
    }
}

} // verus!
