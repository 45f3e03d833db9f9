use vstd::prelude::*;

verus! {

/// Number of whitespace-separated words in a text.
pub uninterp spec fn word_count_of(s: Seq<char>) -> nat;

/// Whether a text holds nothing but whitespace.
pub uninterp spec fn is_blank_text(s: Seq<char>) -> bool;

/// A text without its leading and trailing whitespace.
pub uninterp spec fn trimmed_of(s: Seq<char>) -> Seq<char>;

/// `needle` occurs in `hay` as a run of consecutive characters.
pub open spec fn contains_seq(hay: Seq<char>, needle: Seq<char>) -> bool {
    exists|i: int|
        0 <= i && i + needle.len() <= hay.len() && #[trigger] hay.subrange(i, i + needle.len())
            == needle
}

/// Relies on str::split_whitespace and Iterator::count: the number of words
/// depends on the characters alone, and an empty text has none.
#[verifier::external_body]
pub(crate) fn count_words(s: &str) -> (r: usize)
    ensures
        r as nat == word_count_of(s@),
        s@.len() == 0 ==> r == 0,
{
    s.split_whitespace().count()
}

/// Relies on str::trim and str::is_empty: a text is blank when nothing is left
/// after trimming; an empty text is blank.
#[verifier::external_body]
pub(crate) fn is_blank(s: &str) -> (r: bool)
    ensures
        r == is_blank_text(s@),
        s@.len() == 0 ==> r,
{
    s.trim().is_empty()
}

/// Relies on str::trim: the trimmed text depends on the characters alone and
/// is a run of consecutive characters of the text.
#[verifier::external_body]
pub(crate) fn trimmed(s: &str) -> (r: String)
    ensures
        r@ == trimmed_of(s@),
        contains_seq(s@, r@),
{
    s.trim().to_string()
}

/// Relies on str::contains with a `&str` pattern: true exactly when the
/// pattern occurs as a substring.
#[verifier::external_body]
pub(crate) fn text_contains(hay: &str, needle: &str) -> (r: bool)
    ensures
        r == contains_seq(hay@, needle@),
{
    hay.contains(needle)
}

} // verus!
