//! Copies and comparisons of optional text, and decimal digits.

use vstd::prelude::*;

verus! {

/// A copy of an optional text.
pub fn clone_text(text: &Option<String>) -> (copy: Option<String>)
    ensures
        copy == *text,
{
    match text {
        Some(value) => Some(value.clone()),
        None => None,
    }
}

/// A copy of a field of a patch: absent, cleared, or set to a text.
pub fn clone_text_change(change: &Option<Option<String>>) -> (copy: Option<Option<String>>)
    ensures
        copy == *change,
{
    match change {
        Some(text) => Some(clone_text(text)),
        None => None,
    }
}

/// The characters of an optional text.
pub open spec fn text_view(text: Option<String>) -> Option<Seq<char>> {
    match text {
        Some(value) => Some(value@),
        None => None,
    }
}

/// Whether two optional texts hold the same characters, or are both absent.
pub fn same_text(left: &Option<String>, right: &Option<String>) -> (answer: bool)
    ensures
        answer == (text_view(*left) == text_view(*right)),
{
    match (left, right) {
        (Some(a), Some(b)) => *a == *b,
        (None, None) => true,
        _ => false,
    }
}

/// The value of a decimal digit, if the character is one.
pub open spec fn digit_value(c: char) -> Option<nat> {
    if c == '0' {
        Some(0)
    } else if c == '1' {
        Some(1)
    } else if c == '2' {
        Some(2)
    } else if c == '3' {
        Some(3)
    } else if c == '4' {
        Some(4)
    } else if c == '5' {
        Some(5)
    } else if c == '6' {
        Some(6)
    } else if c == '7' {
        Some(7)
    } else if c == '8' {
        Some(8)
    } else if c == '9' {
        Some(9)
    } else {
        None
    }
}

/// Whether every character is a decimal digit.
pub open spec fn all_digits(text: Seq<char>) -> bool {
    forall|i: int| 0 <= i < text.len() ==> digit_value(#[trigger] text[i]) is Some
}

/// The value of a decimal digit, if the character is one.
pub fn digit_of(c: char) -> (digit: Option<u64>)
    ensures
        match digit_value(c) {
            Some(value) => digit == Some(value as u64) && value < 10,
            None => digit is None,
        },
{
    if c == '0' {
        Some(0)
    } else if c == '1' {
        Some(1)
    } else if c == '2' {
        Some(2)
    } else if c == '3' {
        Some(3)
    } else if c == '4' {
        Some(4)
    } else if c == '5' {
        Some(5)
    } else if c == '6' {
        Some(6)
    } else if c == '7' {
        Some(7)
    } else if c == '8' {
        Some(8)
    } else if c == '9' {
        Some(9)
    } else {
        None
    }
}

} // verus!
