//! Text primitives that the models and handlers compare and transform strings with.

use vstd::prelude::*;

verus! {

/// Whether two string slices hold the same characters.
///
/// Trusted: calls `<str as PartialEq>::eq`, which compares the two slices
/// character by character.
#[verifier::external_body]
pub(crate) fn str_eq(a: &str, b: &str) -> (r: bool)
    ensures
        r == (a@ == b@),
{
    a == b
}

/// What `str::to_lowercase` gives for a text: the Unicode lowercase mapping.
pub uninterp spec fn lowercase_of(s: Seq<char>) -> Seq<char>;

/// ASCII lowercase of one character: 'A'..='Z' map to 'a'..='z', all else is kept.
pub open spec fn ascii_lower_char(c: char) -> char {
    if 'A' <= c && c <= 'Z' {
        ((c as u32) + 32) as char
    } else {
        c
    }
}

/// ASCII lowercase of a text, character by character.
pub open spec fn ascii_lowercase(s: Seq<char>) -> Seq<char> {
    Seq::new(s.len(), |i: int| ascii_lower_char(s[i]))
}

/// The lowercase form of a text.
///
/// Trusted: calls `str::to_lowercase`. Its result is named `lowercase_of`; on a
/// text made of ASCII characters only, the Unicode lowercase mapping is the
/// ASCII one ('A'..='Z' to 'a'..='z', every other character kept), which the
/// second clause states. Nothing is stated of non-ASCII characters.
#[verifier::external_body]
pub(crate) fn to_lowercase(s: &str) -> (r: String)
    ensures
        r@ == lowercase_of(s@),
        vstd::utf8::is_ascii_chars(s@) ==> r@ == ascii_lowercase(s@),
{
    s.to_lowercase()
}

/// Whether `needle` occurs in `haystack` as a contiguous run of characters.
pub open spec fn has_substring(haystack: Seq<char>, needle: Seq<char>) -> bool {
    exists|i: int|
        0 <= i && i + needle.len() <= haystack.len() && #[trigger] haystack.subrange(
            i,
            i + needle.len(),
        ) == needle
}

/// Whether `needle` occurs in `haystack`.
///
/// Trusted: calls `str::contains` with a string pattern, which is true exactly
/// when the pattern matches a sub-slice of the text.
#[verifier::external_body]
pub(crate) fn contains(haystack: &str, needle: &str) -> (r: bool)
    ensures
        r == has_substring(haystack@, needle@),
{
    haystack.contains(needle)
}

/// A text with every leading copy of `pat` removed, one after another.
pub open spec fn strip_all_prefixes(s: Seq<char>, pat: Seq<char>) -> Seq<char>
    decreases s.len(),
{
    if pat.len() > 0 && pat.len() <= s.len() && s.subrange(0, pat.len() as int) == pat {
        strip_all_prefixes(s.subrange(pat.len() as int, s.len() as int), pat)
    } else {
        s
    }
}

/// The text with all leading copies of `pat` removed.
///
/// Trusted: calls `str::trim_start_matches` with a string pattern, which
/// removes the pattern from the front of the text as long as it matches there.
#[verifier::external_body]
pub(crate) fn trim_start_matches<'a>(s: &'a str, pat: &str) -> (r: &'a str)
    ensures
        r@ == strip_all_prefixes(s@, pat@),
{
    s.trim_start_matches(pat)
}

/// What `format!("{:?}", s)` gives for a string: the text quoted and escaped.
pub uninterp spec fn debug_text(s: Seq<char>) -> Seq<char>;

/// The `Debug` rendering of a string, as the handlers put it in response bodies.
///
/// Trusted: calls `format!("{:?}", s)`. Its result is named `debug_text`; how
/// std quotes and escapes characters is not stated.
#[verifier::external_body]
pub(crate) fn debug_quoted(s: &str) -> (r: String)
    ensures
        r@ == debug_text(s@),
{
    format!("{:?}", s)
}

} // verus!
