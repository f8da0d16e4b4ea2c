//! Display labels for recent entries.
//!
//! A path is shown under a label of bounded width. A path that fits is shown
//! as it is; a longer one keeps its tail, the most specific part, behind an
//! ellipsis. A path with nothing but white space in it is shown as `Unknown`.
//! Lengths are counted in characters (Unicode scalar values), never in bytes.

use vstd::prelude::*;
use vstd::string::*;

verus! {

/// The character that stands for the part of a path that was cut away.
pub const ELLIPSIS: char = '\u{2026}';

/// How many characters of the width a shortened label leaves unused for its
/// marker: a label of width `max_len` keeps `max_len - ELLIPSIS_RESERVE`
/// characters of the path.
pub const ELLIPSIS_RESERVE: usize = 4;

/// Whether `c` has the Unicode property `White_Space`.
pub open spec fn is_white_space(c: char) -> bool {
    let n = c as u32;
    ||| 0x09 <= n <= 0x0D
    ||| n == 0x20
    ||| n == 0x85
    ||| n == 0xA0
    ||| n == 0x1680
    ||| 0x2000 <= n <= 0x200A
    ||| n == 0x2028
    ||| n == 0x2029
    ||| n == 0x202F
    ||| n == 0x205F
    ||| n == 0x3000
}

/// A text is blank when trimming white space off both ends leaves nothing,
/// that is, when every character of it is white space.
pub open spec fn is_blank(s: Seq<char>) -> bool {
    forall|i: int| 0 <= i < s.len() ==> is_white_space(#[trigger] s[i])
}

/// How many trailing characters of a path a label of width `max_len` keeps
/// once the path has to be shortened.
pub open spec fn kept_tail(max_len: nat) -> nat {
    if max_len >= ELLIPSIS_RESERVE {
        (max_len - ELLIPSIS_RESERVE) as nat
    } else {
        0
    }
}

/// `s` brought down to the width `max_len`: `s` itself when it has at most
/// `max_len` characters, otherwise an ellipsis and the last
/// `kept_tail(max_len)` characters of `s`.
pub open spec fn truncated(s: Seq<char>, max_len: nat) -> Seq<char> {
    if s.len() <= max_len {
        s
    } else {
        seq![ELLIPSIS] + s.subrange(s.len() - kept_tail(max_len), s.len() as int)
    }
}

/// The label of a path that holds nothing to show.
pub open spec fn unknown_label() -> Seq<char> {
    seq!['U', 'n', 'k', 'n', 'o', 'w', 'n']
}

/// The label under which `path` is shown in a width of `max_len` characters.
pub open spec fn display_label(path: Seq<char>, max_len: nat) -> Seq<char> {
    if is_blank(path) {
        unknown_label()
    } else {
        truncated(path, max_len)
    }
}

/// Whether `c` is a white-space character.
pub fn char_is_white_space(c: char) -> (r: bool)
    ensures
        r == is_white_space(c),
{
    let n: u32 = c as u32;
    (0x09 <= n && n <= 0x0D) || n == 0x20 || n == 0x85 || n == 0xA0 || n == 0x1680 || (0x2000 <= n
        && n <= 0x200A) || n == 0x2028 || n == 0x2029 || n == 0x202F || n == 0x205F || n == 0x3000
}

/// Whether `s` is empty or made of white space only.
pub fn is_blank_text(s: &str) -> (r: bool)
    ensures
        r == is_blank(s@),
{
    broadcast use vstd::string::group_string_axioms;

    let mut blank: bool = true;
    for c in it: s.chars()
        invariant
            it.seq() == s@,
            blank == is_blank(s@.take(it.index())),
    {
        proof {
            let i = it.index();
            let seen = s@.take(i);
            let next = s@.take(i + 1);
            assert(next[i] == c);
            assert(forall|j: int| 0 <= j < i ==> seen[j] == next[j]);
        }
        blank = blank && char_is_white_space(c);
    }
    proof {
        assert(s@.take(s@.len() as int) == s@);
    }
    blank
}

/// Shortens `value` to at most `max_len` characters, keeping its tail.
///
/// A value of at most `max_len` characters comes back unchanged. A longer one
/// comes back as an ellipsis followed by its last `max_len - 4` characters
/// (none when `max_len` is below 4); no character is ever split.
pub fn truncate_label(value: &str, max_len: usize) -> (label: String)
    ensures
        label@ == truncated(value@, max_len as nat),
{
    let len: usize = value.unicode_len();
    if len <= max_len {
        return String::from_str(value);
    }
    let keep: usize = if max_len >= ELLIPSIS_RESERVE {
        max_len - ELLIPSIS_RESERVE
    } else {
        0
    };
    let tail = value.substring_char(len - keep, len);
    let mut label = String::from_str("\u{2026}");
    proof {
        reveal_strlit("\u{2026}");
    }
    label.append(tail);
    label
}

/// The label under which `path` is listed in a width of `max_len` characters:
/// `Unknown` for a blank path, otherwise the path shortened by
/// [`truncate_label`].
pub fn recent_label(path: &str, max_len: usize) -> (label: String)
    ensures
        label@ == display_label(path@, max_len as nat),
{
    if is_blank_text(path) {
        proof {
            reveal_strlit("Unknown");
            assert("Unknown"@ =~= unknown_label());
        }
        return String::from_str("Unknown");
    }
    truncate_label(path, max_len)
}

/// A path that is not blank and fits the width is its own label.
pub proof fn lemma_fitting_label_is_the_path(path: Seq<char>, max_len: nat)
    requires
        path.len() <= max_len,
        !is_blank(path),
    ensures
        display_label(path, max_len) == path,
{
}

/// A path that is not blank and exceeds a width of at least one character
/// gets a label that fits the width, starts with the ellipsis and ends with
/// the last `kept_tail(max_len)` characters of the path.
pub proof fn lemma_long_label_fits_and_keeps_the_tail(path: Seq<char>, max_len: nat)
    requires
        path.len() > max_len,
        !is_blank(path),
        max_len >= 1,
    ensures
        display_label(path, max_len).len() == 1 + kept_tail(max_len),
        display_label(path, max_len).len() <= max_len,
        display_label(path, max_len)[0] == ELLIPSIS,
        display_label(path, max_len).subrange(
            display_label(path, max_len).len() - kept_tail(max_len),
            display_label(path, max_len).len() as int,
        ) == path.subrange(path.len() - kept_tail(max_len), path.len() as int),
{
    let keep = kept_tail(max_len);
    let tail = path.subrange(path.len() - keep, path.len() as int);
    let label = display_label(path, max_len);
    assert(label == seq![ELLIPSIS] + tail);
    assert(label.subrange(label.len() - keep, label.len() as int) =~= tail);
}

/// A blank path, the empty one among them, is labelled `Unknown` whatever the
/// width.
pub proof fn lemma_blank_label_is_unknown(path: Seq<char>, max_len: nat)
    requires
        is_blank(path),
    ensures
        display_label(path, max_len) == unknown_label(),
        display_label(Seq::<char>::empty(), max_len) == unknown_label(),
{
}

} // verus!
