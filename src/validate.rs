//! Advisory checks on field content: URI syntax and JSON syntax.

use vstd::prelude::*;

verus! {

/// Shape of an acceptable URI: scheme `http`, `https` or `ftp`, then `://`,
/// then a host-and-path part without whitespace.
pub const URI_PATTERN: &'static str = r"^(https?|ftp)://[^\s]+$";

/// What `str::trim` leaves of a text.
pub uninterp spec fn trimmed(s: Seq<char>) -> Seq<char>;

/// Whether `regex::Regex::new` accepts a pattern.
pub uninterp spec fn regex_compiles(pattern: Seq<char>) -> bool;

/// Whether the regex built from `pattern` matches somewhere in `text`.
pub uninterp spec fn regex_matches(pattern: Seq<char>, text: Seq<char>) -> bool;

/// Whether `serde_json` parses a text as one JSON value.
pub uninterp spec fn parses_as_json(text: Seq<char>) -> bool;

/// Relies on `str::trim`: the text without leading and trailing whitespace.
#[verifier::external_body]
fn trim_text(s: &str) -> (r: &str)
    ensures
        r@ == trimmed(s@),
{
    s.trim()
}

/// Relies on `regex::Regex::new` (which fails on a pattern it does not
/// accept) and `Regex::is_match` on the regex it built.
#[verifier::external_body]
fn regex_match(pattern: &str, text: &str) -> (r: Option<bool>)
    ensures
        r == if regex_compiles(pattern@) {
            Some(regex_matches(pattern@, text@))
        } else {
            None::<bool>
        },
{
    regex::Regex::new(pattern).ok().map(|re| re.is_match(text))
}

/// Relies on `serde_json::from_str::<serde_json::Value>`: whether it parses
/// the text.
#[verifier::external_body]
fn json_parses(text: &str) -> (r: bool)
    ensures
        r == parses_as_json(text@),
{
    serde_json::from_str::<serde_json::Value>(text).is_ok()
}

/// A text is a valid URI when something is left after trimming it and the
/// whole text matches the URI pattern.
pub open spec fn uri_valid(text: Seq<char>) -> bool {
    &&& trimmed(text).len() > 0
    &&& regex_compiles(URI_PATTERN@)
    &&& regex_matches(URI_PATTERN@, text)
}

/// Whether nothing but whitespace is in `text`.
pub fn is_blank(text: &str) -> (r: bool)
    ensures
        r == (trimmed(text@).len() == 0),
{
    trim_text(text).is_empty()
}

/// The URI verdict from whether the text is blank and the outcome of the
/// pattern match (`None` when the pattern could not be built).
pub fn uri_verdict(blank: bool, pattern_match: Option<bool>) -> (r: bool)
    ensures
        r == (!blank && pattern_match == Some(true)),
{
    if blank {
        false
    } else {
        match pattern_match {
            Some(m) => m,
            None => false,
        }
    }
}

/// Whether `text` is a syntactically acceptable URI.
pub fn validate_uri(text: &str) -> (r: bool)
    ensures
        r == uri_valid(text@),
{
    let blank = is_blank(text);
    let m = regex_match(URI_PATTERN, text);
    uri_verdict(blank, m)
}

/// Whether `text` parses as one JSON value.
pub fn validate_json(text: &str) -> (r: bool)
    ensures
        r == parses_as_json(text@),
{
    json_parses(text)
}

} // verus!
