use vstd::prelude::*;

verus! {

/// Whether `regex::Regex::new` accepts `pattern`.
pub uninterp spec fn regex_compiles(pattern: Seq<char>) -> bool;

/// What `regex::Regex::is_match` answers on `haystack` for the regex that
/// `regex::Regex::new` builds from `pattern`.
pub uninterp spec fn regex_is_match(pattern: Seq<char>, haystack: Seq<char>) -> bool;

/// Builds a regex from `pattern` with `regex::Regex::new` and, where that
/// succeeds, asks `regex::Regex::is_match` whether it matches somewhere in
/// `haystack`. Trusted: the result is `None` exactly where the pattern is
/// refused, and otherwise the answer of `is_match`; both depend on the two
/// texts alone, which the regex crate's documentation gives (a pattern is
/// refused when it is invalid or compiles past the fixed default size
/// limits).
#[verifier::external_body]
fn search_regex(pattern: &str, haystack: &str) -> (r: Option<bool>)
    ensures
        r is Some <==> regex_compiles(pattern@),
        r matches Some(found) ==> found == regex_is_match(pattern@, haystack@),
{
    match regex::Regex::new(pattern) {
        Ok(re) => Some(re.is_match(haystack)),
        Err(_) => None,
    }
}

/// The marker that synced lyrics carry for an instrumental track:
/// `[au:`, any white space, then `instrumental]`.
pub const INSTRUMENTAL_MARKER: &'static str = "\\[au:\\s*instrumental\\]";

/// Whether the synced lyrics of a track mark it as instrumental: `false`
/// for a track without synced lyrics; otherwise whether the marker
/// pattern matches somewhere in them, or `None` where the pattern is
/// refused.
pub fn lyrics_mark_instrumental(lrc_lyrics: &Option<String>) -> (r: Option<bool>)
    ensures
        match lrc_lyrics {
            None => r == Some(false),
            Some(l) => r == (if regex_compiles(INSTRUMENTAL_MARKER@) {
                Some(regex_is_match(INSTRUMENTAL_MARKER@, l@))
            } else {
                None
            }),
        },
{
    match lrc_lyrics {
        None => Some(false),
        Some(l) => search_regex(INSTRUMENTAL_MARKER, l.as_str()),
    }
}

} // verus!
