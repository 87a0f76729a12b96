//! Substring replacement over sequences of characters.

use vstd::prelude::*;
use crate::text::{chars_of, string_of};

verus! {

/// `text` after every occurrence of `pattern` has been replaced by
/// `substitute`.
///
/// Occurrences are found from left to right and do not overlap: after an
/// occurrence the search goes on behind it, and what was substituted is never
/// searched again. An empty `pattern` occurs once before every character and
/// once at the end.
pub open spec fn replace_all(text: Seq<char>, pattern: Seq<char>, substitute: Seq<char>) -> Seq<
    char,
>
    decreases text.len(),
{
    if pattern.len() == 0 {
        if text.len() == 0 {
            substitute
        } else {
            substitute + text.take(1) + replace_all(text.skip(1), pattern, substitute)
        }
    } else if pattern.is_prefix_of(text) {
        substitute + replace_all(text.skip(pattern.len() as int), pattern, substitute)
    } else if text.len() == 0 {
        text
    } else {
        text.take(1) + replace_all(text.skip(1), pattern, substitute)
    }
}

/// Whether `pattern` occurs in `text` at position `at`.
pub open spec fn occurs_at(text: Seq<char>, pattern: Seq<char>, at: int) -> bool {
    0 <= at <= text.len() && pattern.is_prefix_of(text.skip(at))
}

/// A text in which a pattern of at least one character does not occur is
/// left as it is.
pub proof fn lemma_replace_all_absent(text: Seq<char>, pattern: Seq<char>, substitute: Seq<char>)
    requires
        pattern.len() > 0,
        forall|at: int| !occurs_at(text, pattern, at),
    ensures
        replace_all(text, pattern, substitute) == text,
    decreases text.len(),
{
    if text.len() > 0 {
        let rest = text.skip(1);
        assert(!pattern.is_prefix_of(text)) by {
            assert(text.skip(0) =~= text);
            assert(!occurs_at(text, pattern, 0));
        }
        assert forall|at: int| !occurs_at(rest, pattern, at) by {
            if 0 <= at <= rest.len() {
                assert(rest.skip(at) =~= text.skip(at + 1));
                assert(!occurs_at(text, pattern, at + 1));
            }
        }
        lemma_replace_all_absent(rest, pattern, substitute);
        assert(text.take(1) + rest =~= text);
    }
}

/// The leftmost occurrence of a pattern of at least one character is
/// replaced, what stands before it is kept, and the replacement goes on
/// behind it.
pub proof fn lemma_replace_all_leftmost(
    text: Seq<char>,
    pattern: Seq<char>,
    substitute: Seq<char>,
    at: int,
)
    requires
        pattern.len() > 0,
        occurs_at(text, pattern, at),
        forall|before: int| 0 <= before < at ==> !occurs_at(text, pattern, before),
    ensures
        replace_all(text, pattern, substitute) == text.take(at) + substitute + replace_all(
            text.skip(at + pattern.len()),
            pattern,
            substitute,
        ),
    decreases at,
{
    if at == 0 {
        assert(text.skip(0) =~= text);
        assert(text.take(0) + substitute =~= substitute);
    } else {
        let rest = text.skip(1);
        assert(!pattern.is_prefix_of(text)) by {
            assert(text.skip(0) =~= text);
            assert(!occurs_at(text, pattern, 0));
        }
        assert(rest.skip(at - 1) =~= text.skip(at));
        assert forall|before: int| 0 <= before < at - 1 implies !occurs_at(
            rest,
            pattern,
            before,
        ) by {
            assert(rest.skip(before) =~= text.skip(before + 1));
            assert(!occurs_at(text, pattern, before + 1));
        }
        lemma_replace_all_leftmost(rest, pattern, substitute, at - 1);
        assert(rest.skip(at - 1 + pattern.len()) =~= text.skip(at + pattern.len()));
        assert(text.take(1) + rest.take(at - 1) =~= text.take(at));
    }
}

/// Whether `pattern` stands in `text` at position `at`.
fn matches_at(text: &Vec<char>, at: usize, pattern: &Vec<char>) -> (found: bool)
    requires
        at <= text.len(),
    ensures
        found == occurs_at(text@, pattern@, at as int),
{
    if pattern.len() > text.len() - at {
        return false;
    }
    let ghost rest = text@.skip(at as int);
    let mut k: usize = 0;
    while k < pattern.len()
        invariant
            k <= pattern.len(),
            at + pattern.len() <= text.len(),
            rest == text@.skip(at as int),
            forall|j: int| 0 <= j < k ==> rest[j] == pattern@[j],
        decreases pattern.len() - k,
    {
        if text[at + k] != pattern[k] {
            assert(rest.subrange(0, pattern@.len() as int)[k as int] != pattern@[k as int]);
            return false;
        }
        k += 1;
    }
    assert(pattern@ =~= rest.subrange(0, pattern@.len() as int));
    true
}

/// Appends the characters of `tail` to `out`.
fn append_chars(out: &mut Vec<char>, tail: &Vec<char>)
    ensures
        final(out)@ == old(out)@ + tail@,
{
    let mut k: usize = 0;
    while k < tail.len()
        invariant
            k <= tail.len(),
            out@ == old(out)@ + tail@.take(k as int),
        decreases tail.len() - k,
    {
        out.push(tail[k]);
        k += 1;
    }
}

/// Replaces every occurrence of `pattern` in `text` by `substitute`.
pub fn replace_chars(text: &Vec<char>, pattern: &Vec<char>, substitute: &Vec<char>) -> (out: Vec<
    char,
>)
    ensures
        out@ == replace_all(text@, pattern@, substitute@),
{
    let mut out: Vec<char> = Vec::new();
    let mut i: usize = 0;
    assert(text@.skip(0) =~= text@);
    while i < text.len()
        invariant
            i <= text.len(),
            out@ + replace_all(text@.skip(i as int), pattern@, substitute@) == replace_all(
                text@,
                pattern@,
                substitute@,
            ),
        decreases text.len() - i,
    {
        let ghost rest = text@.skip(i as int);
        if pattern.len() == 0 {
            append_chars(&mut out, substitute);
            out.push(text[i]);
            assert(rest.take(1) =~= seq![text@[i as int]]);
            assert(rest.skip(1) =~= text@.skip(i + 1));
            i += 1;
        } else if matches_at(text, i, pattern) {
            append_chars(&mut out, substitute);
            assert(rest.skip(pattern@.len() as int) =~= text@.skip(i + pattern@.len()));
            i += pattern.len();
        } else {
            out.push(text[i]);
            assert(rest.take(1) =~= seq![text@[i as int]]);
            assert(rest.skip(1) =~= text@.skip(i + 1));
            i += 1;
        }
    }
    if pattern.len() == 0 {
        append_chars(&mut out, substitute);
    }
    out
}

/// Replaces every occurrence of `pattern` in `text` by `substitute`.
pub fn replace(text: &str, pattern: &str, substitute: &str) -> (out: String)
    ensures
        out@ == replace_all(text@, pattern@, substitute@),
{
    let text = chars_of(text);
    let pattern = chars_of(pattern);
    let substitute = chars_of(substitute);
    string_of(&replace_chars(&text, &pattern, &substitute))
}

} // verus!
