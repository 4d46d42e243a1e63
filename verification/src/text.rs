//! Text helpers: comparison and trimming of strings.

use vstd::prelude::*;

verus! {

/// Whether `c` is white space: the value of std's `char::is_whitespace`,
/// the Unicode property `White_Space`, by which `str::trim` trims.
pub uninterp spec fn is_white_space(c: char) -> bool;

/// `text` without its leading white space.
pub open spec fn without_leading_space(text: Seq<char>) -> Seq<char>
    decreases text.len(),
{
    if text.len() > 0 && is_white_space(text[0]) {
        without_leading_space(text.drop_first())
    } else {
        text
    }
}

/// `text` without its trailing white space.
pub open spec fn without_trailing_space(text: Seq<char>) -> Seq<char>
    decreases text.len(),
{
    if text.len() > 0 && is_white_space(text.last()) {
        without_trailing_space(text.drop_last())
    } else {
        text
    }
}

/// `text` without the white space that surrounds it.
pub open spec fn trimmed(text: Seq<char>) -> Seq<char> {
    without_trailing_space(without_leading_space(text))
}

/// Trimmed text neither starts nor ends with white space, and trimming it
/// again changes nothing.
pub proof fn trimmed_text_has_bare_ends(text: Seq<char>)
    ensures
        trimmed(text).len() > 0 ==> !is_white_space(trimmed(text)[0]) && !is_white_space(
            trimmed(text).last(),
        ),
        trimmed(trimmed(text)) == trimmed(text),
{
    lemma_leading(text);
    lemma_trailing(without_leading_space(text));
}

/// What is left without leading white space starts with none.
proof fn lemma_leading(text: Seq<char>)
    ensures
        without_leading_space(text).len() > 0 ==> !is_white_space(without_leading_space(text)[0]),
        without_leading_space(text).len() <= text.len(),
    decreases text.len(),
{
    if text.len() > 0 && is_white_space(text[0]) {
        lemma_leading(text.drop_first());
    }
}

/// What is left without trailing white space ends with none, and is a
/// beginning of the text.
proof fn lemma_trailing(text: Seq<char>)
    ensures
        without_trailing_space(text).len() > 0 ==> !is_white_space(
            without_trailing_space(text).last(),
        ),
        without_trailing_space(text) == text.take(without_trailing_space(text).len() as int),
        without_trailing_space(text).len() <= text.len(),
    decreases text.len(),
{
    if text.len() > 0 && is_white_space(text.last()) {
        lemma_trailing(text.drop_last());
    }
}

/// Trims `text` with std's `str::trim`.
///
/// Trusted: the documentation of `str::trim` promises the slice with leading
/// and trailing white space removed, white space being the Unicode property
/// `White_Space`. What remains therefore neither starts nor ends with a white
/// space character.
#[verifier::external_body]
pub(crate) fn trim(text: &str) -> (r: &str)
    ensures
        r@ == trimmed(text@),
        r@.len() > 0 ==> !is_white_space(r@[0]) && !is_white_space(r@.last()),
{
    text.trim()
}

/// Compares two strings with std's `==` on `str`.
///
/// Trusted: two strings are equal exactly when they hold the same characters.
#[verifier::external_body]
pub(crate) fn same_text(a: &str, b: &str) -> (r: bool)
    ensures
        r == (a@ == b@),
{
    a == b
}

} // verus!
