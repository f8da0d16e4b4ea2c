//! The grammar of menu identifiers.
//!
//! Every menu item carries an identifier, and a click hands that identifier
//! back as a string. Three shapes mean something here:
//!
//! | identifier            | meaning                              |
//! |-----------------------|--------------------------------------|
//! | `app_quit`            | leave the application                |
//! | `<prefix><n>`         | the `n`-th recent entry of a kind    |
//! | `<prefix>empty`       | the inert entry of an empty list     |
//!
//! where `<prefix>` is `recent_project_` or `recent_evaluation_` and `<n>` is
//! a decimal index, counted from 0. Every other identifier is generic: it is
//! handed on as it is.

use crate::text::{chars_of, same_from, starts_with};
use vstd::prelude::*;
use vstd::string::*;

verus! {

/// The two kinds of recent entries.
#[derive(Clone, Copy, Debug, PartialEq, Eq, Structural)]
pub enum RecentKind {
    Project,
    Evaluation,
}

/// What an identifier says, before any list is consulted.
#[derive(Clone, Copy, Debug, PartialEq, Eq, Structural)]
pub enum MenuId {
    /// `app_quit`.
    Quit,
    /// A recent entry, by kind and position.
    RecentItem { kind: RecentKind, index: usize },
    /// The entry that stands in for an empty list.
    Placeholder { kind: RecentKind },
    /// A recent prefix followed by something that is no index.
    Malformed { kind: RecentKind },
    /// Anything else.
    Generic,
}

/// The identifier that ends the application.
pub open spec fn quit_id() -> Seq<char> {
    "app_quit"@
}

/// What follows the prefix in the identifier of a placeholder.
pub open spec fn placeholder_suffix() -> Seq<char> {
    "empty"@
}

impl RecentKind {
    /// The prefix of the identifiers of this kind.
    pub open spec fn spec_prefix(self) -> Seq<char> {
        match self {
            RecentKind::Project => "recent_project_"@,
            RecentKind::Evaluation => "recent_evaluation_"@,
        }
    }

    /// The name of this kind in an event's payload.
    pub open spec fn spec_name(self) -> Seq<char> {
        match self {
            RecentKind::Project => "project"@,
            RecentKind::Evaluation => "evaluation"@,
        }
    }

    /// The prefix of the identifiers of this kind.
    pub fn prefix(self) -> (prefix: &'static str)
        ensures
            prefix@ == self.spec_prefix(),
    {
        match self {
            RecentKind::Project => "recent_project_",
            RecentKind::Evaluation => "recent_evaluation_",
        }
    }

    /// The name of this kind in an event's payload: `project` or `evaluation`.
    pub fn name(self) -> (name: &'static str)
        ensures
            name@ == self.spec_name(),
    {
        match self {
            RecentKind::Project => "project",
            RecentKind::Evaluation => "evaluation",
        }
    }
}

/// The character of the decimal digit `d`.
pub open spec fn digit_char(d: nat) -> char
    recommends
        d < 10,
{
    (0x30 + d) as char
}

/// Whether `c` is one of `0` to `9`.
pub open spec fn is_digit(c: char) -> bool {
    0x30 <= c as u32 <= 0x39
}

/// The value of the decimal digit `c`.
pub open spec fn digit_value(c: char) -> nat
    recommends
        is_digit(c),
{
    (c as u32 - 0x30) as nat
}

/// `n` in decimal, without sign and without leading zeros.
pub open spec fn decimal(n: nat) -> Seq<char>
    decreases n,
{
    if n < 10 {
        seq![digit_char(n)]
    } else {
        decimal(n / 10).push(digit_char(n % 10))
    }
}

/// Whether `s` holds decimal digits only.
pub open spec fn all_digits(s: Seq<char>) -> bool {
    forall|i: int| 0 <= i < s.len() ==> is_digit(#[trigger] s[i])
}

/// The number that the digits of `s` write in decimal.
pub open spec fn digits_value(s: Seq<char>) -> nat
    decreases s.len(),
{
    if s.len() == 0 {
        0
    } else {
        digits_value(s.drop_last()) * 10 + digit_value(s.last())
    }
}

/// `s` without a leading plus sign.
pub open spec fn unsigned_part(s: Seq<char>) -> Seq<char> {
    if s.len() > 0 && s[0] == '+' {
        s.skip(1)
    } else {
        s
    }
}

/// The index that `s` writes: an optional plus sign, then one or more
/// decimal digits whose value fits a `usize`. Anything else writes no index.
pub open spec fn parse_index(s: Seq<char>) -> Option<usize> {
    let digits = unsigned_part(s);
    if digits.len() > 0 && all_digits(digits) && digits_value(digits) <= usize::MAX {
        Some(digits_value(digits) as usize)
    } else {
        None
    }
}

/// The identifier of the entry at `index` under `prefix`.
pub open spec fn indexed_id(prefix: Seq<char>, index: nat) -> Seq<char> {
    prefix + decimal(index)
}

/// The identifier of the placeholder under `prefix`.
pub open spec fn placeholder_id(prefix: Seq<char>) -> Seq<char> {
    prefix + placeholder_suffix()
}

/// What the part of an identifier behind the prefix of `kind` says.
pub open spec fn classify_suffix(kind: RecentKind, rest: Seq<char>) -> MenuId {
    if rest == placeholder_suffix() {
        MenuId::Placeholder { kind }
    } else {
        match parse_index(rest) {
            Some(index) => MenuId::RecentItem { kind, index },
            None => MenuId::Malformed { kind },
        }
    }
}

/// What the identifier `id` says. The first rule that applies decides: the
/// quit identifier, then the project prefix, then the evaluation prefix.
pub open spec fn classify(id: Seq<char>) -> MenuId {
    let project = RecentKind::Project.spec_prefix();
    let evaluation = RecentKind::Evaluation.spec_prefix();
    if id == quit_id() {
        MenuId::Quit
    } else if project.is_prefix_of(id) {
        classify_suffix(RecentKind::Project, id.skip(project.len() as int))
    } else if evaluation.is_prefix_of(id) {
        classify_suffix(RecentKind::Evaluation, id.skip(evaluation.len() as int))
    } else {
        MenuId::Generic
    }
}

/// A number is at least the number that any of its leading digits write.
proof fn lemma_digits_value_grows(s: Seq<char>, k: int)
    requires
        0 <= k <= s.len(),
    ensures
        digits_value(s.take(k)) <= digits_value(s),
    decreases s.len() - k,
{
    if k == s.len() {
        assert(s.take(k) =~= s);
    } else {
        lemma_digits_value_grows(s.drop_last(), k);
        assert(s.drop_last().take(k) =~= s.take(k));
    }
}

/// Appending one digit multiplies the value by ten and adds the digit.
proof fn lemma_digits_value_push(s: Seq<char>, c: char)
    ensures
        digits_value(s.push(c)) == digits_value(s) * 10 + digit_value(c),
{
    assert(s.push(c).drop_last() =~= s);
}

/// The decimal form of a number is made of digits and writes that number.
pub proof fn lemma_decimal_is_canonical(n: nat)
    ensures
        decimal(n).len() >= 1,
        all_digits(decimal(n)),
        digits_value(decimal(n)) == n,
    decreases n,
{
    if n < 10 {
        let s = decimal(n);
        assert(s.drop_last() =~= Seq::<char>::empty());
        assert(digits_value(s.drop_last()) == 0);
    } else {
        lemma_decimal_is_canonical(n / 10);
        lemma_digits_value_push(decimal(n / 10), digit_char(n % 10));
    }
}

/// Writing an index in decimal and reading it back gives the index.
pub proof fn lemma_decimal_round_trip(index: usize)
    ensures
        parse_index(decimal(index as nat)) == Some(index),
{
    lemma_decimal_is_canonical(index as nat);
    let s = decimal(index as nat);
    assert(is_digit(s[0]));
}

/// The prefixes of the two kinds cannot be mistaken for one another, nor for
/// the quit identifier: an identifier that begins with the prefix of a kind
/// is not `app_quit` and does not begin with the prefix of the other kind.
pub proof fn lemma_prefixes_are_distinct(kind: RecentKind, id: Seq<char>)
    requires
        kind.spec_prefix().is_prefix_of(id),
    ensures
        id != quit_id(),
        kind == RecentKind::Evaluation ==> !RecentKind::Project.spec_prefix().is_prefix_of(id),
        kind == RecentKind::Project ==> !RecentKind::Evaluation.spec_prefix().is_prefix_of(id),
        classify(id) == classify_suffix(kind, id.skip(kind.spec_prefix().len() as int)),
{
    reveal_strlit("app_quit");
    reveal_strlit("recent_project_");
    reveal_strlit("recent_evaluation_");
    let prefix = kind.spec_prefix();
    assert(id[0] == prefix[0]);
    assert(id[7] == prefix[7]);
}

/// The identifier built for the entry at `index` of a kind reads back as
/// that entry.
pub proof fn lemma_indexed_id_round_trip(kind: RecentKind, index: usize)
    ensures
        classify(indexed_id(kind.spec_prefix(), index as nat)) == (MenuId::RecentItem {
            kind,
            index,
        }),
{
    reveal_strlit("empty");
    reveal_strlit("recent_project_");
    reveal_strlit("recent_evaluation_");
    let prefix = kind.spec_prefix();
    let digits = decimal(index as nat);
    let id = indexed_id(prefix, index as nat);
    lemma_decimal_is_canonical(index as nat);
    lemma_decimal_round_trip(index);
    assert(prefix.is_prefix_of(id));
    lemma_prefixes_are_distinct(kind, id);
    assert(id.skip(prefix.len() as int) =~= digits);
    assert(is_digit(digits[0]));
    assert(digits != placeholder_suffix());
}

/// The identifier built for the placeholder of a kind reads back as that
/// placeholder.
pub proof fn lemma_placeholder_id_round_trip(kind: RecentKind)
    ensures
        classify(placeholder_id(kind.spec_prefix())) == (MenuId::Placeholder { kind }),
{
    reveal_strlit("recent_project_");
    reveal_strlit("recent_evaluation_");
    let prefix = kind.spec_prefix();
    let id = placeholder_id(prefix);
    assert(prefix.is_prefix_of(id));
    lemma_prefixes_are_distinct(kind, id);
    assert(id.skip(prefix.len() as int) =~= placeholder_suffix());
}

/// The text of the decimal digit `d`.
fn digit_text(d: usize) -> (text: &'static str)
    requires
        d < 10,
    ensures
        text@ == seq![digit_char(d as nat)],
{
    proof {
        reveal_strlit("0");
        reveal_strlit("1");
        reveal_strlit("2");
        reveal_strlit("3");
        reveal_strlit("4");
        reveal_strlit("5");
        reveal_strlit("6");
        reveal_strlit("7");
        reveal_strlit("8");
        reveal_strlit("9");
    }
    let text = match d {
        0 => "0",
        1 => "1",
        2 => "2",
        3 => "3",
        4 => "4",
        5 => "5",
        6 => "6",
        7 => "7",
        8 => "8",
        _ => "9",
    };
    assert(text@ =~= seq![digit_char(d as nat)]);
    text
}

/// Appends `n` in decimal to `out`.
pub fn append_decimal(out: &mut String, n: usize)
    ensures
        final(out)@ == old(out)@ + decimal(n as nat),
    decreases n,
{
    if n >= 10 {
        append_decimal(out, n / 10);
    }
    out.append(digit_text(n % 10));
    proof {
        let head = old(out)@;
        if n >= 10 {
            assert(out@ =~= head + decimal((n / 10) as nat).push(digit_char((n % 10) as nat)));
        } else {
            assert(out@ =~= head + seq![digit_char(n as nat)]);
        }
    }
}

/// The identifier of the entry at `index` under `prefix`: the prefix, then
/// the index in decimal.
pub fn index_identifier(prefix: &str, index: usize) -> (id: String)
    ensures
        id@ == indexed_id(prefix@, index as nat),
{
    let mut id = String::from_str(prefix);
    append_decimal(&mut id, index);
    id
}

/// The identifier of the placeholder under `prefix`: the prefix, then `empty`.
pub fn placeholder_identifier(prefix: &str) -> (id: String)
    ensures
        id@ == placeholder_id(prefix@),
{
    let mut id = String::from_str(prefix);
    id.append("empty");
    id
}

/// Reads the index that `text` writes from position `start` on.
fn parse_index_from(text: &Vec<char>, start: usize) -> (index: Option<usize>)
    requires
        start <= text.len(),
    ensures
        index == parse_index(text@.skip(start as int)),
{
    let len: usize = text.len();
    let ghost rest = text@.skip(start as int);
    let mut i: usize = start;
    if i < len && text[i] == '+' {
        i += 1;
    }
    let first: usize = i;
    let ghost digits = text@.skip(first as int);
    assert(digits =~= unsigned_part(rest));
    if first == len {
        return None;
    }
    let mut value: usize = 0;
    while i < len
        invariant
            start <= first < len,
            first <= i <= len,
            len == text.len(),
            digits == text@.skip(first as int),
            digits == unsigned_part(text@.skip(start as int)),
            all_digits(digits.take(i - first)),
            value == digits_value(digits.take(i - first)),
        decreases len - i,
    {
        let c: char = text[i];
        let code: u32 = c as u32;
        if code < 0x30 || code > 0x39 {
            assert(digits[i - first] == c);
            assert(!is_digit(digits[i - first]));
            return None;
        }
        let digit: usize = (code - 0x30) as usize;
        proof {
            let seen = digits.take(i - first);
            let next = digits.take(i - first + 1);
            assert(next =~= seen.push(c));
            lemma_digits_value_push(seen, c);
            assert forall|j: int| 0 <= j < next.len() implies is_digit(#[trigger] next[j]) by {
                if j < seen.len() {
                    assert(next[j] == seen[j]);
                }
            }
            lemma_digits_value_grows(digits, i - first + 1);
        }
        let shifted: usize = match value.checked_mul(10) {
            Some(shifted) => shifted,
            None => {
                return None;
            },
        };
        value = match shifted.checked_add(digit) {
            Some(sum) => sum,
            None => {
                return None;
            },
        };
        i += 1;
    }
    assert(digits.take(len - first) =~= digits);
    Some(value)
}

/// Reads the index that `text` writes: an optional plus sign, then decimal
/// digits. Gives `None` for anything else, and for a number beyond `usize`.
pub fn parse_index_text(text: &str) -> (index: Option<usize>)
    ensures
        index == parse_index(text@),
{
    let chars = chars_of(text);
    assert(chars@.skip(0) =~= chars@);
    parse_index_from(&chars, 0)
}

/// What the characters behind the prefix of `kind` say.
fn classify_rest(kind: RecentKind, text: &Vec<char>, start: usize) -> (id: MenuId)
    requires
        start <= text.len(),
    ensures
        id == classify_suffix(kind, text@.skip(start as int)),
{
    let placeholder = chars_of("empty");
    if same_from(text, start, &placeholder) {
        return MenuId::Placeholder { kind };
    }
    match parse_index_from(text, start) {
        Some(index) => MenuId::RecentItem { kind, index },
        None => MenuId::Malformed { kind },
    }
}

/// Reads an identifier.
///
/// `app_quit` is [`MenuId::Quit`]. An identifier that begins with the prefix
/// of a kind names a recent entry of that kind when an index follows the
/// prefix, the placeholder when `empty` follows it, and is malformed
/// otherwise. Every other identifier is [`MenuId::Generic`].
pub fn parse_identifier(identifier: &str) -> (id: MenuId)
    ensures
        id == classify(identifier@),
{
    let text = chars_of(identifier);
    let quit = chars_of("app_quit");
    if same_from(&text, 0, &quit) {
        assert(text@.skip(0) =~= text@);
        return MenuId::Quit;
    }
    assert(text@.skip(0) =~= text@);
    let project = chars_of(RecentKind::Project.prefix());
    if starts_with(&text, &project) {
        return classify_rest(RecentKind::Project, &text, project.len());
    }
    let evaluation = chars_of(RecentKind::Evaluation.prefix());
    if starts_with(&text, &evaluation) {
        return classify_rest(RecentKind::Evaluation, &text, evaluation.len());
    }
    MenuId::Generic
}

} // verus!
