//! Small verified helpers over strings and lists of strings.
//!
//! Contracts in this crate speak of a string by its view, a `Seq<char>`, and
//! of a list of strings by its deep view, a `Seq<Seq<char>>`.

use vstd::prelude::*;
use vstd::utf8::{decode_utf8, valid_utf8};

verus! {

/// The model of a list of strings.
pub type Texts = Seq<Seq<char>>;

/// Whether `s` holds exactly the characters of `literal`.
pub fn is_text(s: &String, literal: &str) -> (same: bool)
    ensures
        same == (s@ == literal@),
{
    let owned = literal.to_owned();
    *s == owned
}

/// Whether `list` holds a string with the characters of `needle`.
pub fn contains_text(list: &Vec<String>, needle: &str) -> (found: bool)
    ensures
        found == list.deep_view().contains(needle@),
{
    let mut i: usize = 0;
    while i < list.len()
        invariant
            i <= list.len(),
            forall|j: int| 0 <= j < i ==> list.deep_view()[j] != needle@,
        decreases list.len() - i,
    {
        if is_text(&list[i], needle) {
            assert(list.deep_view()[i as int] == needle@);
            return true;
        }
        i += 1;
    }
    false
}

/// A copy of a list of strings.
pub fn copy_texts(list: &Vec<String>) -> (copy: Vec<String>)
    ensures
        copy.deep_view() == list.deep_view(),
{
    let mut copy: Vec<String> = Vec::new();
    let mut i: usize = 0;
    while i < list.len()
        invariant
            i <= list.len(),
            copy.len() == i,
            forall|j: int| 0 <= j < i ==> copy.deep_view()[j] == list.deep_view()[j],
        decreases list.len() - i,
    {
        copy.push(list[i].clone());
        i += 1;
    }
    assert(copy.deep_view() =~= list.deep_view());
    copy
}

/// A copy of an optional string.
pub fn copy_optional_text(text: &Option<String>) -> (copy: Option<String>)
    ensures
        copy.deep_view() == text.deep_view(),
{
    match text {
        Some(s) => Some(s.clone()),
        None => None,
    }
}

/// A copy of an optional list of strings.
pub fn copy_optional_texts(list: &Option<Vec<String>>) -> (copy: Option<Vec<String>>)
    ensures
        copy.deep_view() == list.deep_view(),
{
    match list {
        Some(l) => Some(copy_texts(l)),
        None => None,
    }
}

/// Whether `needle` occurs in `haystack` as a run of consecutive
/// characters.
pub open spec fn occurs_in(haystack: Seq<char>, needle: Seq<char>) -> bool {
    exists|start: int| occurs_at(haystack, needle, start)
}

/// Whether `needle` occurs in `haystack` from position `start` on.
pub open spec fn occurs_at(haystack: Seq<char>, needle: Seq<char>, start: int) -> bool {
    &&& 0 <= start
    &&& start + needle.len() <= haystack.len()
    &&& haystack.subrange(start, start + needle.len()) == needle
}

/// Whether `needle`, of `width` characters, occurs in `haystack` from
/// position `start` on.
fn has_text_at(haystack: &str, needle: &str, start: usize, width: usize) -> (found: bool)
    requires
        width == needle@.len(),
        start + width <= haystack@.len() <= usize::MAX,
    ensures
        found == occurs_at(haystack@, needle@, start as int),
{
    let mut k: usize = 0;
    while k < width
        invariant
            k <= width,
            width == needle@.len(),
            start + width <= haystack@.len() <= usize::MAX,
            forall|j: int| 0 <= j < k ==> haystack@[start + j] == needle@[j],
        decreases width - k,
    {
        if haystack.get_char(start + k) != needle.get_char(k) {
            assert(haystack@.subrange(start as int, start + width)[k as int] != needle@[k as int]);
            return false;
        }
        k += 1;
    }
    assert(haystack@.subrange(start as int, start + width) =~= needle@);
    true
}

/// Whether `needle` occurs in `haystack`.
pub fn has_text(haystack: &str, needle: &str) -> (found: bool)
    ensures
        found == occurs_in(haystack@, needle@),
{
    let length = haystack.unicode_len();
    let width = needle.unicode_len();
    if width > length {
        return false;
    }
    let last = length - width;
    let mut start: usize = 0;
    loop
        invariant
            start <= last,
            last + width == length,
            length == haystack@.len(),
            width == needle@.len(),
            forall|s: int| 0 <= s < start ==> !occurs_at(haystack@, needle@, s),
        decreases last - start,
    {
        if has_text_at(haystack, needle, start, width) {
            return true;
        }
        if start == last {
            return false;
        }
        start += 1;
    }
}

/// Whether `text` ends with the characters of `ending`.
pub open spec fn ends_in(text: Seq<char>, ending: Seq<char>) -> bool {
    occurs_at(text, ending, text.len() - ending.len())
}

/// Whether `text` ends with the characters of `ending`.
pub fn has_ending(text: &str, ending: &str) -> (found: bool)
    ensures
        found == ends_in(text@, ending@),
{
    let length = text.unicode_len();
    let width = ending.unicode_len();
    if width > length {
        false
    } else {
        has_text_at(text, ending, length - width, width)
    }
}

/// `text` with every occurrence of `pattern` replaced by `replacement`.
/// Occurrences are taken from the left and do not overlap; an empty pattern
/// occurs nowhere.
pub open spec fn replaced(text: Seq<char>, pattern: Seq<char>, replacement: Seq<char>) -> Seq<
    char,
>
    decreases text.len(),
{
    if pattern.len() == 0 || text.len() < pattern.len() {
        text
    } else if occurs_at(text, pattern, 0) {
        replacement + replaced(text.skip(pattern.len() as int), pattern, replacement)
    } else {
        seq![text[0]] + replaced(text.skip(1), pattern, replacement)
    }
}

/// `text` with every occurrence of `pattern` replaced by `replacement`.
pub fn replace_text(text: &str, pattern: &str, replacement: &str) -> (result: String)
    ensures
        result@ == replaced(text@, pattern@, replacement@),
{
    let length = text.unicode_len();
    let width = pattern.unicode_len();
    if width == 0 || length < width {
        return text.to_owned();
    }
    let last = length - width;
    let ghost whole = replaced(text@, pattern@, replacement@);
    let mut result = String::new();
    let mut i: usize = 0;
    assert(text@.skip(0) =~= text@);
    assert(result@ + whole =~= whole);
    while i <= last
        invariant
            i <= length,
            last + width == length,
            width > 0,
            length == text@.len(),
            width == pattern@.len(),
            whole == replaced(text@, pattern@, replacement@),
            result@ + replaced(text@.skip(i as int), pattern@, replacement@) == whole,
        decreases length - i,
    {
        let ghost rest = text@.skip(i as int);
        let ghost done = result@;
        proof {
            assert(rest.subrange(0, width as int) =~= text@.subrange(i as int, i + width));
            assert(occurs_at(rest, pattern@, 0) == occurs_at(text@, pattern@, i as int));
        }
        if has_text_at(text, pattern, i, width) {
            result.append(replacement);
            i += width;
            proof {
                assert(rest.skip(width as int) =~= text@.skip(i as int));
                assert(result@ + replaced(text@.skip(i as int), pattern@, replacement@) =~= done
                    + replaced(rest, pattern@, replacement@));
            }
        } else {
            result.append(text.substring_char(i, i + 1));
            i += 1;
            proof {
                assert(text@.subrange(i - 1, i as int) =~= seq![rest[0]]);
                assert(rest.skip(1) =~= text@.skip(i as int));
                assert(result@ + replaced(text@.skip(i as int), pattern@, replacement@) =~= done
                    + replaced(rest, pattern@, replacement@));
            }
        }
    }
    let ghost done = result@;
    result.append(text.substring_char(i, length));
    proof {
        assert(text@.subrange(i as int, length as int) =~= text@.skip(i as int));
        assert(result@ =~= done + replaced(text@.skip(i as int), pattern@, replacement@));
    }
    result
}

/// Decodes bytes as UTF-8 text with `String::from_utf8`.
///
/// Trusted: the bytes are accepted exactly when they are valid UTF-8, and
/// the string then holds the characters that they encode.
#[verifier::external_body]
pub(crate) fn decode_text(bytes: Vec<u8>) -> (text: Option<String>)
    ensures
        text is Some == valid_utf8(bytes@),
        text matches Some(decoded) ==> decoded@ == decode_utf8(bytes@),
{
    String::from_utf8(bytes).ok()
}

} // verus!
