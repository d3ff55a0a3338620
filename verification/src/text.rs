//! Small questions about text that the rules of the service ask.

use vstd::prelude::*;
use vstd::string::StringExecFns;

verus! {

/// `c` is white space: one of the characters with the Unicode property
/// `White_Space`.
pub open spec fn white_space(c: char) -> bool {
    let n = c as u32;
    ||| 0x09 <= n <= 0x0D
    ||| n == 0x20
    ||| n == 0x85
    ||| n == 0xA0
    ||| n == 0x1680
    ||| 0x2000 <= n <= 0x200A
    ||| n == 0x2028
    ||| n == 0x2029
    ||| n == 0x202F
    ||| n == 0x205F
    ||| n == 0x3000
}

/// `text` is empty or white space only, so that nothing is left of it
/// once it is trimmed.
pub open spec fn blank(text: Seq<char>) -> bool {
    forall|i: int| 0 <= i < text.len() ==> white_space(#[trigger] text[i])
}

/// The character `c` occurs in `text`.
pub open spec fn holds_char(text: Seq<char>, c: char) -> bool {
    exists|i: int| 0 <= i < text.len() && text[i] == c
}

/// `text` passes for an email address: it holds an `@` and is not blank.
pub open spec fn email_shaped(text: Seq<char>) -> bool {
    holds_char(text, '@') && !blank(text)
}

/// `text` between two `%`: the pattern that matches whatever contains
/// `text`.
pub open spec fn containing(text: Seq<char>) -> Seq<char> {
    seq!['%'] + text + seq!['%']
}

/// Decides whether two pieces of text hold the same characters.
pub fn same_text(a: &str, b: &str) -> (r: bool)
    ensures
        r == (a@ == b@),
{
    let x = String::from_str(a);
    let y = String::from_str(b);
    x == y
}

/// Decides whether `c` is white space.
pub fn is_white_space(c: char) -> (r: bool)
    ensures
        r == white_space(c),
{
    let n: u32 = c as u32;
    (0x09 <= n && n <= 0x0D) || n == 0x20 || n == 0x85 || n == 0xA0 || n == 0x1680 || (0x2000 <= n
        && n <= 0x200A) || n == 0x2028 || n == 0x2029 || n == 0x202F || n == 0x205F || n == 0x3000
}

/// Decides whether `text` is empty or white space only.
pub fn is_blank(text: &str) -> (r: bool)
    ensures
        r == blank(text@),
{
    broadcast use vstd::string::axiom_spec_iter;

    for c in it: text.chars()
        invariant
            it.seq() == text@,
            forall|k: int| 0 <= k < it.index() ==> white_space(#[trigger] text@[k]),
    {
        if !is_white_space(c) {
            return false;
        }
    }
    true
}

/// Decides whether `c` occurs in `text`.
pub fn contains_char(text: &str, c: char) -> (r: bool)
    ensures
        r == holds_char(text@, c),
{
    broadcast use vstd::string::axiom_spec_iter;

    for x in it: text.chars()
        invariant
            it.seq() == text@,
            forall|k: int| 0 <= k < it.index() ==> text@[k] != c,
    {
        if x == c {
            return true;
        }
    }
    false
}

/// Decides whether `text` passes for an email address.
pub fn is_email_shaped(text: &str) -> (r: bool)
    ensures
        r == email_shaped(text@),
{
    contains_char(text, '@') && !is_blank(text)
}

/// The pattern that matches whatever contains `text`.
pub fn pattern_containing(text: &str) -> (pattern: String)
    ensures
        pattern@ == containing(text@),
{
    proof {
        reveal_strlit("%");
    }
    let pattern = String::from_str("%").concat(text).concat("%");
    pattern
}

/// A copy of a piece of text that may be absent.
pub fn copy_text(text: &Option<String>) -> (copy: Option<String>)
    ensures
        copy == *text,
{
    match text {
        Some(t) => Some(t.clone()),
        None => None,
    }
}

} // verus!
