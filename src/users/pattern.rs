use vstd::prelude::*;

verus! {

/// Whether `regex::Regex::new` accepts the pattern; it depends on the pattern alone.
pub uninterp spec fn regex_compiles(pattern: Seq<char>) -> bool;

/// Whether a compiled pattern matches somewhere in the text, as `regex::Regex::is_match`
/// decides it; it depends on the pattern and the text alone.
pub uninterp spec fn regex_finds(pattern: Seq<char>, text: Seq<char>) -> bool;

/// The pattern compiles and matches somewhere in the text.
pub open spec fn pattern_found(pattern: Seq<char>, text: Seq<char>) -> bool {
    regex_compiles(pattern) && regex_finds(pattern, text)
}

/// Relies on `regex::Regex::new`, which returns an error for a pattern it cannot
/// compile, and on `regex::Regex::is_match`, which tells whether the compiled pattern
/// matches anywhere in the haystack.
#[verifier::external_body]
pub(crate) fn search(pattern: &str, text: &str) -> (r: Option<bool>)
    ensures
        r is Some <==> regex_compiles(pattern@),
        r matches Some(found) ==> found == regex_finds(pattern@, text@),
{
    regex::Regex::new(pattern).ok().map(|re| re.is_match(text))
}

/// Whether the pattern compiles and matches somewhere in the text.
pub fn is_found(pattern: &str, text: &str) -> (r: bool)
    ensures
        r == pattern_found(pattern@, text@),
{
    match search(pattern, text) {
        Some(found) => found,
        None => false,
    }
}

} // verus!
