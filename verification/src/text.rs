//! Small operations on text that the protocol needs.

use vstd::prelude::*;

verus! {

/// Whether `needle` occurs in `haystack` as a run of consecutive characters.
pub open spec fn occurs_in(needle: Seq<char>, haystack: Seq<char>) -> bool {
    exists|start: int|
        0 <= start <= haystack.len() - needle.len() && #[trigger] haystack.subrange(
            start,
            start + needle.len(),
        ) == needle
}

/// Whether `text` begins with the two characters `0x`.
pub open spec fn has_hex_prefix(text: Seq<char>) -> bool {
    text.len() >= 2 && text[0] == '0' && text[1] == 'x'
}

/// `text` without one leading `0x`; `text` itself where it has none.
pub open spec fn without_hex_prefix(text: Seq<char>) -> Seq<char> {
    if has_hex_prefix(text) {
        text.subrange(2, text.len() as int)
    } else {
        text
    }
}

/// `text` without the slashes at its end.
pub open spec fn without_trailing_slashes(text: Seq<char>) -> Seq<char>
    decreases text.len(),
{
    if text.len() > 0 && text.last() == '/' {
        without_trailing_slashes(text.drop_last())
    } else {
        text
    }
}

/// The character that stands for a digit below ten.
pub open spec fn digit_char(digit: int) -> char {
    (48 + digit) as char
}

/// The decimal notation of `n`, without leading zeros.
pub open spec fn decimal_text(n: nat) -> Seq<char>
    decreases n,
{
    if n < 10 {
        seq![digit_char(n as int)]
    } else {
        decimal_text(n / 10).push(digit_char((n % 10) as int))
    }
}

/// Stripping the prefix a second time changes nothing, unless what the first
/// time left begins with the prefix again.
pub proof fn lemma_strip_hex_prefix_idempotent(text: Seq<char>)
    requires
        !has_hex_prefix(without_hex_prefix(text)),
    ensures
        without_hex_prefix(without_hex_prefix(text)) == without_hex_prefix(text),
{
}

/// A handle with the prefix before it and the handle alone are stripped to
/// the same text, unless the handle alone begins with the prefix.
pub proof fn lemma_hex_prefix_makes_no_difference(handle: Seq<char>)
    requires
        !has_hex_prefix(handle),
    ensures
        without_hex_prefix(seq!['0', 'x'] + handle) == handle,
        without_hex_prefix(handle) == handle,
{
    let prefixed = seq!['0', 'x'] + handle;
    assert(prefixed.subrange(2, prefixed.len() as int) =~= handle);
}

/// Calls `str::contains` with a string as the pattern: whether the pattern
/// matches some part of the text.
#[verifier::external_body]
fn str_contains(haystack: &str, needle: &str) -> (found: bool)
    ensures
        found == occurs_in(needle@, haystack@),
{
    haystack.contains(needle)
}

/// Whether `needle` occurs in `haystack`.
pub fn contains(haystack: &str, needle: &str) -> (found: bool)
    ensures
        found == occurs_in(needle@, haystack@),
{
    str_contains(haystack, needle)
}

/// Whether two texts are the same.
pub fn same(a: &str, b: &str) -> (equal: bool)
    ensures
        equal == (a@ == b@),
{
    let left = a.to_owned();
    let right = b.to_owned();
    left == right
}

/// Strips one leading `0x`, if there is one.
pub fn strip_hex_prefix(text: &str) -> (rest: &str)
    ensures
        rest@ == without_hex_prefix(text@),
{
    let length = text.unicode_len();
    if length >= 2 && text.get_char(0) == '0' && text.get_char(1) == 'x' {
        text.substring_char(2, length)
    } else {
        text
    }
}

/// Strips every slash at the end.
pub fn trim_trailing_slashes(text: &str) -> (rest: &str)
    ensures
        rest@ == without_trailing_slashes(text@),
{
    let mut end = text.unicode_len();
    proof {
        assert(text@.subrange(0, end as int) =~= text@);
    }
    while end > 0 && text.get_char(end - 1) == '/'
        invariant
            end <= text@.len(),
            without_trailing_slashes(text@.subrange(0, end as int)) == without_trailing_slashes(
                text@,
            ),
        decreases end,
    {
        proof {
            let head = text@.subrange(0, end as int);
            assert(head.last() == '/');
            assert(head.drop_last() =~= text@.subrange(0, end - 1));
        }
        end -= 1;
    }
    text.substring_char(0, end)
}

/// The text of one decimal digit.
fn digit(d: u64) -> (text: &'static str)
    requires
        d < 10,
    ensures
        text@ == seq![digit_char(d as int)],
{
    let text = if d == 0 {
        "0"
    } else if d == 1 {
        "1"
    } else if d == 2 {
        "2"
    } else if d == 3 {
        "3"
    } else if d == 4 {
        "4"
    } else if d == 5 {
        "5"
    } else if d == 6 {
        "6"
    } else if d == 7 {
        "7"
    } else if d == 8 {
        "8"
    } else {
        "9"
    };
    proof {
        reveal_strlit("0");
        reveal_strlit("1");
        reveal_strlit("2");
        reveal_strlit("3");
        reveal_strlit("4");
        reveal_strlit("5");
        reveal_strlit("6");
        reveal_strlit("7");
        reveal_strlit("8");
        reveal_strlit("9");
        assert(text@ =~= seq![digit_char(d as int)]);
    }
    text
}

/// Writes `n` in decimal notation.
pub fn decimal(n: u64) -> (text: String)
    ensures
        text@ == decimal_text(n as nat),
    decreases n,
{
    if n < 10 {
        String::from_str(digit(n))
    } else {
        let mut text = decimal(n / 10);
        text.append(digit(n % 10));
        text
    }
}

} // verus!
