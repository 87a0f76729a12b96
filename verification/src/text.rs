//! Conversions between strings and vectors of characters.
//!
//! A string is modelled by its view, the sequence of its characters. The
//! functions here move between `&str`/`String` and `Vec<char>` without
//! changing that sequence, so that the algorithms of this crate can index
//! characters in constant time.

use vstd::prelude::*;

verus! {

/// Specification of `String::push`: the character is appended at the end of
/// the string and nothing else changes. Verus takes this on trust.
pub assume_specification[ String::push ](s: &mut String, ch: char)
    ensures
        final(s)@ == old(s)@.push(ch),
;

/// Specification of `==` on string slices: two slices are equal exactly when
/// they hold the same characters in the same order. Verus takes this on trust.
pub assume_specification[ <str as PartialEq>::eq ](a: &str, b: &str) -> (equal: bool)
    ensures
        equal == (a@ == b@),
;

/// The characters of `s`, in order.
pub fn chars_of(s: &str) -> (chars: Vec<char>)
    ensures
        chars@ == s@,
{
    let mut chars: Vec<char> = Vec::new();
    for c in it: s.chars()
        invariant
            chars@ == it.seq().take(it.index() as int),
    {
        chars.push(c);
    }
    chars
}

/// The string whose characters are `chars`, in order.
pub fn string_of(chars: &Vec<char>) -> (s: String)
    ensures
        s@ == chars@,
{
    let mut s = String::new();
    let mut i: usize = 0;
    while i < chars.len()
        invariant
            i <= chars.len(),
            s@ == chars@.take(i as int),
        decreases chars.len() - i,
    {
        s.push(chars[i]);
        i += 1;
    }
    s
}

} // verus!
