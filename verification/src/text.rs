//! The pieces of text from which error messages are put together.

use vstd::prelude::*;
use vstd::string::StringExecFns;

verus! {

/// The decimal digit that stands for `d`, for `d` below ten.
pub open spec fn digit_char(d: int) -> char {
    ('0' as u8 + d) as u8 as char
}

/// `n` in decimal, without sign or leading zeros.
pub open spec fn decimal_text(n: nat) -> Seq<char>
    decreases n,
{
    if n < 10 {
        seq![digit_char(n as int)]
    } else {
        decimal_text(n / 10).push(digit_char((n % 10) as int))
    }
}

/// A character as Rust's `Debug` writes it: in single quotes, escaped where
/// it would not show.
pub uninterp spec fn char_debug_text(c: char) -> Seq<char>;

/// `usize::to_string`, which std documents to give the number in decimal.
#[verifier::external_body]
pub(crate) fn decimal(n: usize) -> (text: String)
    ensures
        text@ == decimal_text(n as nat),
{
    n.to_string()
}

/// `format!` with `{:?}` on a character: what `char`'s `Debug` gives, which
/// depends on the character alone.
#[verifier::external_body]
pub(crate) fn char_debug(c: char) -> (text: String)
    ensures
        text@ == char_debug_text(c),
{
    format!("{:?}", c)
}

/// The text as a string of its own.
pub fn owned(text: &str) -> (copy: String)
    ensures
        copy@ == text@,
{
    String::from_str(text)
}

/// `head` followed by `tail`.
pub fn join(head: &str, tail: &str) -> (text: String)
    ensures
        text@ == head@ + tail@,
{
    let text = String::from_str(head);
    text.concat(tail)
}

/// `head` followed by `n` in decimal.
pub fn with_number(head: &str, n: usize) -> (text: String)
    ensures
        text@ == head@ + decimal_text(n as nat),
{
    let digits = decimal(n);
    join(head, digits.as_str())
}

} // verus!
