//! The operations on text that naming a product needs: trimming trailing
//! white space, upper-casing, and replacing one character by a text.
//!
//! What counts as white space and what the upper case of a text is are
//! Unicode's business; the standard library decides both, and this module
//! only gives its answers a name.

use vstd::prelude::*;

verus! {

/// Whether `c` is white space: the answer of `char::is_whitespace`.
pub uninterp spec fn is_white_space(c: char) -> bool;

/// The upper case of a text: the result of `str::to_uppercase`.
pub uninterp spec fn upper_case(text: Seq<char>) -> Seq<char>;

/// Calls `char::is_whitespace`. Trusted: the answer depends on the
/// character alone, so it is the value of `is_white_space` at `c`.
#[verifier::external_body]
pub(crate) fn char_is_white_space(c: char) -> (white: bool)
    ensures
        white == is_white_space(c),
{
    c.is_whitespace()
}

/// Calls `str::to_uppercase`. Trusted: the result depends on the text
/// alone, so it is the value of `upper_case` at `text`.
#[verifier::external_body]
pub(crate) fn to_upper_case(text: &str) -> (upper: String)
    ensures
        upper@ == upper_case(text@),
{
    text.to_uppercase()
}

/// `text` with every occurrence of the character `from` replaced by the
/// text `to`, and every other character kept.
pub open spec fn replaced(text: Seq<char>, from: char, to: Seq<char>) -> Seq<char>
    decreases text.len(),
{
    if text.len() == 0 {
        Seq::empty()
    } else if text.last() == from {
        replaced(text.drop_last(), from, to) + to
    } else {
        replaced(text.drop_last(), from, to).push(text.last())
    }
}

/// Calls `str::replace` with a single character as the pattern. Trusted:
/// each match of such a pattern is one occurrence of the character, and the
/// result is a new text in which every match is replaced by `to`.
#[verifier::external_body]
pub(crate) fn replace_char(text: &str, from: char, to: &str) -> (result: String)
    ensures
        result@ == replaced(text@, from, to@),
{
    text.replace(from, to)
}

/// The length of `text` without its trailing white space.
pub open spec fn trimmed_len(text: Seq<char>) -> nat
    decreases text.len(),
{
    if text.len() == 0 {
        0
    } else if is_white_space(text.last()) {
        trimmed_len(text.drop_last())
    } else {
        text.len()
    }
}

/// `text` without its trailing white space.
pub open spec fn trimmed(text: Seq<char>) -> Seq<char> {
    text.take(trimmed_len(text) as int)
}

/// `trimmed(text)` is the prefix of `text` that is left when the longest
/// run of white space at its end is cut off.
pub proof fn lemma_trimmed(text: Seq<char>)
    ensures
        trimmed_len(text) <= text.len(),
        forall|i: int| trimmed_len(text) <= i < text.len() ==> is_white_space(#[trigger] text[i]),
        trimmed_len(text) > 0 ==> !is_white_space(text[trimmed_len(text) - 1]),
    decreases text.len(),
{
    if text.len() > 0 && is_white_space(text.last()) {
        let front = text.drop_last();
        lemma_trimmed(front);
        assert forall|i: int| trimmed_len(text) <= i < text.len() implies is_white_space(
            #[trigger] text[i],
        ) by {
            if i < front.len() {
                assert(front[i] == text[i]);
            }
        }
        if trimmed_len(text) > 0 {
            assert(front[trimmed_len(text) - 1] == text[trimmed_len(text) - 1]);
        }
    }
}

/// Cutting white space off the end of a text leaves what is left when it is
/// cut off the text without its last character, if that character is white
/// space.
proof fn lemma_trimmed_len_of_prefix(text: Seq<char>, end: int)
    requires
        0 < end <= text.len(),
        is_white_space(text[end - 1]),
    ensures
        trimmed_len(text.take(end)) == trimmed_len(text.take(end - 1)),
{
    assert(text.take(end).drop_last() =~= text.take(end - 1));
}

/// The text without its trailing white space.
pub fn trim_end(text: &str) -> (kept: &str)
    ensures
        kept@ == trimmed(text@),
{
    let mut end: usize = text.unicode_len();
    assert(text@.take(end as int) =~= text@);
    while end > 0 && char_is_white_space(text.get_char(end - 1))
        invariant
            end <= text@.len(),
            trimmed_len(text@) == trimmed_len(text@.take(end as int)),
        decreases end,
    {
        proof {
            lemma_trimmed_len_of_prefix(text@, end as int);
        }
        end -= 1;
    }
    proof {
        if end > 0 {
            assert(text@.take(end as int).last() == text@[end - 1]);
        }
    }
    text.substring_char(0, end)
}

} // verus!
