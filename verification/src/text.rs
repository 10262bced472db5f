//! Reading what a user typed: a line is stripped of the white space at its
//! ends, put into lower case where it is an answer to a question, and read
//! as a number where one is asked for.

use vstd::prelude::*;

verus! {

/// Whether `c` is one of the ten decimal digits.
pub open spec fn is_digit(c: char) -> bool {
    '0' as u32 <= c as u32 <= '9' as u32
}

/// The number that a sequence of decimal digits denotes.
pub open spec fn digits_value(digits: Seq<char>) -> nat
    decreases digits.len(),
{
    if digits.len() == 0 {
        0
    } else {
        digits_value(digits.drop_last()) * 10 + (digits.last() as u32 - '0' as u32) as nat
    }
}

/// `text` without a plus sign in front.
pub open spec fn without_sign(text: Seq<char>) -> Seq<char> {
    if text.len() > 0 && text[0] == '+' {
        text.skip(1)
    } else {
        text
    }
}

/// The number that `text` denotes, if it denotes one of at most `max`:
/// `text` is an optional plus sign and then one decimal digit or more,
/// nothing else.
pub open spec fn number_of(text: Seq<char>, max: nat) -> Option<nat> {
    let digits = without_sign(text);
    if digits.len() > 0 && (forall|i: int| 0 <= i < digits.len() ==> is_digit(#[trigger] digits[i]))
        && digits_value(digits) <= max {
        Some(digits_value(digits))
    } else {
        None
    }
}

/// The lower case of `c` where `c` is one of the letters `A` to `Z`, and `c`
/// itself otherwise.
pub open spec fn lower(c: char) -> char {
    if 'A' as u32 <= c as u32 <= 'Z' as u32 {
        ((c as u32 + 32) as u8) as char
    } else {
        c
    }
}

/// `text` with each of its characters in lower case.
pub open spec fn lowered(text: Seq<char>) -> Seq<char> {
    text.map_values(|c: char| lower(c))
}

/// `text` without the white space at its two ends, as `str::trim` returns
/// it.
pub uninterp spec fn trimmed(text: Seq<char>) -> Seq<char>;

/// Calls `str::trim`, which returns the slice without leading and trailing
/// white space. The result goes by the name `trimmed`.
#[verifier::external_body]
pub(crate) fn trim(text: &str) -> (inner: &str)
    ensures
        inner@ == trimmed(text@),
{
    text.trim()
}

/// Calls `str::to_ascii_lowercase`, which returns a copy in which the
/// letters `A` to `Z` are mapped to `a` to `z` and every other character is
/// unchanged.
#[verifier::external_body]
pub(crate) fn to_ascii_lowercase(text: &str) -> (copy: String)
    ensures
        copy@ == lowered(text@),
{
    text.to_ascii_lowercase()
}

/// Calls `str::parse` for a `usize`. It takes an optional plus sign followed
/// by decimal digits and nothing else, at least one digit, and fails on a
/// number that does not fit the type.
#[verifier::external_body]
pub(crate) fn parse_usize(text: &str) -> (number: Option<usize>)
    ensures
        match number {
            Some(n) => number_of(text@, usize::MAX as nat) == Some(n as nat),
            None => number_of(text@, usize::MAX as nat) is None,
        },
{
    text.parse::<usize>().ok()
}

/// Calls `str::parse` for a `u16`. It takes an optional plus sign followed
/// by decimal digits and nothing else, at least one digit, and fails on a
/// number that does not fit the type.
#[verifier::external_body]
pub(crate) fn parse_u16(text: &str) -> (number: Option<u16>)
    ensures
        match number {
            Some(n) => number_of(text@, u16::MAX as nat) == Some(n as nat),
            None => number_of(text@, u16::MAX as nat) is None,
        },
{
    text.parse::<u16>().ok()
}

/// Whether `answer` is the word `word`.
pub(crate) fn is_word(answer: &str, word: &str) -> (same: bool)
    ensures
        same == (answer@ == word@),
{
    let answer = String::from_str(answer);
    let word = String::from_str(word);
    answer == word
}

/// The answer that a line holds: the line without the white space at its
/// ends, in lower case.
pub fn read_string(input_text: &str) -> (answer: String)
    ensures
        answer@ == lowered(trimmed(input_text@)),
{
    to_ascii_lowercase(trim(input_text))
}

} // verus!
