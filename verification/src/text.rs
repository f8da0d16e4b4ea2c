//! Character-level helpers on text.
//!
//! Identifiers are taken apart character by character. These helpers turn a
//! string into its characters and compare runs of characters, each with a
//! contract over the `Seq<char>` that the string stands for.

use vstd::prelude::*;
use vstd::string::*;

verus! {

/// The characters of `s`, in order.
pub fn chars_of(s: &str) -> (chars: Vec<char>)
    ensures
        chars@ == s@,
{
    broadcast use vstd::string::group_string_axioms;

    let mut chars: Vec<char> = Vec::new();
    for c in it: s.chars()
        invariant
            it.seq() == s@,
            chars@ == s@.take(it.index()),
    {
        chars.push(c);
        assert(chars@ =~= s@.take(it.index() + 1));
    }
    assert(s@.take(s@.len() as int) =~= s@);
    chars
}

/// Whether `text` from position `start` on reads exactly `other`. A `start`
/// beyond the end of `text` reads nothing.
pub fn same_from(text: &Vec<char>, start: usize, other: &Vec<char>) -> (same: bool)
    ensures
        same == (start <= text.len() && text@.skip(start as int) == other@),
{
    if start > text.len() {
        return false;
    }
    let rest: usize = text.len() - start;
    if rest != other.len() {
        return false;
    }
    let mut i: usize = 0;
    while i < rest
        invariant
            start + rest == text.len(),
            rest == other.len(),
            i <= rest,
            forall|j: int| 0 <= j < i ==> text@[start + j] == other@[j],
        decreases rest - i,
    {
        if text[start + i] != other[i] {
            assert(text@.skip(start as int)[i as int] != other@[i as int]);
            return false;
        }
        i += 1;
    }
    assert(text@.skip(start as int) =~= other@);
    true
}

/// Whether `text` begins with `prefix`.
pub fn starts_with(text: &Vec<char>, prefix: &Vec<char>) -> (found: bool)
    ensures
        found == prefix@.is_prefix_of(text@),
{
    if prefix.len() > text.len() {
        return false;
    }
    let mut i: usize = 0;
    while i < prefix.len()
        invariant
            prefix.len() <= text.len(),
            i <= prefix.len(),
            forall|j: int| 0 <= j < i ==> text@[j] == prefix@[j],
        decreases prefix.len() - i,
    {
        if text[i] != prefix[i] {
            return false;
        }
        i += 1;
    }
    true
}

} // verus!
