//! Operations on text that the standard library provides and the verifier
//! does not know. Everything in this file is trusted: each function states
//! what the standard library's documentation says of the call it makes.

use vstd::prelude::*;

verus! {

/// Whether `pattern` stands in `text` at the position `at`.
pub open spec fn occurs_at(text: Seq<char>, pattern: Seq<char>, at: int) -> bool {
    0 <= at && at + pattern.len() <= text.len() && text.subrange(at, at + pattern.len())
        == pattern
}

/// Whether `pattern` stands somewhere in `text`.
pub open spec fn occurs_in(text: Seq<char>, pattern: Seq<char>) -> bool {
    exists|at: int| occurs_at(text, pattern, at)
}

/// The first position at which `pattern` stands in `text`.
pub open spec fn first_occurrence(text: Seq<char>, pattern: Seq<char>) -> int
    recommends
        occurs_in(text, pattern),
{
    choose|at: int|
        occurs_at(text, pattern, at) && forall|earlier: int|
            0 <= earlier < at ==> !occurs_at(text, pattern, earlier)
}

/// `text` with the first occurrence of `pattern` replaced by `to`, or
/// `text` itself if `pattern` does not occur in it.
pub open spec fn first_replaced(text: Seq<char>, pattern: Seq<char>, to: Seq<char>) -> Seq<char> {
    if occurs_in(text, pattern) {
        let at = first_occurrence(text, pattern);
        text.take(at) + to + text.skip(at + pattern.len())
    } else {
        text
    }
}

/// `str::contains` with a string pattern: whether the pattern is a
/// substring of the text.
#[verifier::external_body]
pub(crate) fn contains(text: &str, pattern: &str) -> (found: bool)
    ensures
        found == occurs_in(text@, pattern@),
{
    text.contains(pattern)
}

/// `str::starts_with` with a character pattern: whether the text begins
/// with that character.
#[verifier::external_body]
pub(crate) fn starts_with_char(text: &str, first: char) -> (yes: bool)
    ensures
        yes == (text@.len() > 0 && text@[0] == first),
{
    text.starts_with(first)
}

/// `str::replacen` with a string pattern and the count 1: the first match
/// of the pattern is replaced, and matches are found from the start of the
/// text.
#[verifier::external_body]
pub(crate) fn replace_first(text: &str, pattern: &str, to: &str) -> (replaced: String)
    ensures
        replaced@ == first_replaced(text@, pattern@, to@),
{
    text.replacen(pattern, to, 1)
}

/// What `str::to_lowercase` makes of a text: its lowercase equivalent, by
/// the Unicode rules for lowercase.
pub uninterp spec fn lowercase(text: Seq<char>) -> Seq<char>;

/// `str::to_lowercase`. The result depends on the text alone.
#[verifier::external_body]
pub(crate) fn to_lowercase(text: &str) -> (lowered: String)
    ensures
        lowered@ == lowercase(text@),
{
    text.to_lowercase()
}

/// What `str::trim` makes of a text: the text without its leading and
/// trailing white space, as Unicode defines white space.
pub uninterp spec fn trimmed(text: Seq<char>) -> Seq<char>;

/// `str::trim`. The result depends on the text alone.
#[verifier::external_body]
pub(crate) fn trim(text: &str) -> (inner: &str)
    ensures
        inner@ == trimmed(text@),
{
    text.trim()
}

} // verus!
