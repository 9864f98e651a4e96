//! The compute half of the URL resolver.
//!
//! The embedding program invokes an external resolver process for a channel
//! and hands its exit status and captured output to [`resolve_outcome`],
//! which decides whether resolution succeeded and extracts the playable URL
//! (the output with surrounding whitespace removed).  [`stream_page_url`]
//! builds the canonical stream page URL that the resolver is pointed at.

use vstd::prelude::*;

verus! {

/// Why resolving a channel to a playable URL failed.
#[derive(Clone, Copy, Debug, PartialEq, Eq, Structural)]
pub enum ResolveError {
    /// The external resolver exited with a non-success status.
    ResolutionFailed,
    /// The resolver succeeded but produced no usable URL
    /// (its output was empty after trimming whitespace).
    EmptyResult,
}

/// The whitespace characters stripped from resolver output: the Unicode
/// `White_Space` set, the same set that `str::trim` strips.
pub open spec fn is_space_char(c: char) -> bool {
    ||| c == '\t'
    ||| c == '\n'
    ||| c == '\u{b}'
    ||| c == '\u{c}'
    ||| c == '\r'
    ||| c == ' '
    ||| c == '\u{85}'
    ||| c == '\u{a0}'
    ||| c == '\u{1680}'
    ||| ('\u{2000}' <= c && c <= '\u{200a}')
    ||| c == '\u{2028}'
    ||| c == '\u{2029}'
    ||| c == '\u{202f}'
    ||| c == '\u{205f}'
    ||| c == '\u{3000}'
}

/// `s` with its leading whitespace removed.
pub open spec fn trim_front(s: Seq<char>) -> Seq<char>
    decreases s.len(),
{
    if s.len() > 0 && is_space_char(s[0]) {
        trim_front(s.subrange(1, s.len() as int))
    } else {
        s
    }
}

/// `s` with its trailing whitespace removed.
pub open spec fn trim_back(s: Seq<char>) -> Seq<char>
    decreases s.len(),
{
    if s.len() > 0 && is_space_char(s[s.len() - 1]) {
        trim_back(s.subrange(0, s.len() - 1))
    } else {
        s
    }
}

/// `s` with leading and trailing whitespace removed.
pub open spec fn trimmed(s: Seq<char>) -> Seq<char> {
    trim_back(trim_front(s))
}

fn is_space(c: char) -> (r: bool)
    ensures
        r == is_space_char(c),
{
    c == '\t' || c == '\n' || c == '\u{b}' || c == '\u{c}' || c == '\r' || c == ' ' || c == '\u{85}'
        || c == '\u{a0}' || c == '\u{1680}' || ('\u{2000}' <= c && c <= '\u{200a}')
        || c == '\u{2028}' || c == '\u{2029}' || c == '\u{202f}' || c == '\u{205f}'
        || c == '\u{3000}'
}

fn trim_front_str<'a>(s: &'a str) -> (r: &'a str)
    ensures
        r@ == trim_front(s@),
    decreases s@.len(),
{
    let n: usize = s.unicode_len();
    if n > 0 && is_space(s.get_char(0)) {
        trim_front_str(s.substring_char(1, n))
    } else {
        s
    }
}

fn trim_back_str<'a>(s: &'a str) -> (r: &'a str)
    ensures
        r@ == trim_back(s@),
    decreases s@.len(),
{
    let n: usize = s.unicode_len();
    if n > 0 && is_space(s.get_char(n - 1)) {
        trim_back_str(s.substring_char(0, n - 1))
    } else {
        s
    }
}

/// The resolver's output with surrounding whitespace removed.
pub fn trim_spaces(s: &str) -> (r: String)
    ensures
        r@ == trimmed(s@),
{
    trim_back_str(trim_front_str(s)).to_owned()
}

/// The canonical stream page URL that the external resolver is pointed at
/// for a channel: the channel identifier appended to the site prefix.
pub fn stream_page_url(channel: &str) -> (r: String)
    requires
        channel@.len() > 0,
    ensures
        r@ == "https://twitch.tv/"@ + channel@,
{
    let mut url = String::from_str("https://twitch.tv/");
    url.append(channel);
    url
}

/// Decides the outcome of one resolver invocation from its exit status and
/// captured output.  A non-success status is `ResolutionFailed`; output that
/// is empty once trimmed is `EmptyResult`; otherwise the trimmed output is
/// the playable URL.  Resolution is a single attempt: the caller surfaces
/// any error immediately and never retries.
pub fn resolve_outcome(success: bool, output: &str) -> (r: Result<String, ResolveError>)
    ensures
        !success ==> r == Err::<String, ResolveError>(ResolveError::ResolutionFailed),
        success && trimmed(output@).len() == 0 ==> r == Err::<String, ResolveError>(
            ResolveError::EmptyResult,
        ),
        success && trimmed(output@).len() > 0 ==> (r matches Ok(url) && url@ == trimmed(output@)),
{
    if !success {
        return Err(ResolveError::ResolutionFailed);
    }
    let url = trim_spaces(output);
    if url.as_str().unicode_len() == 0 {
        Err(ResolveError::EmptyResult)
    } else {
        Ok(url)
    }
}

} // verus!
