//! Small helpers on text that the columns share.

use vstd::prelude::*;

verus! {

/// `String::push` of std: appends one character to the end of the string.
pub assume_specification[ String::push ](text: &mut String, ch: char)
    ensures
        final(text)@ == old(text)@.push(ch),
;

/// A run of `n` spaces.
pub open spec fn spaces(n: nat) -> Seq<char> {
    Seq::new(n, |i: int| ' ')
}

/// `text` filled up with spaces on the right to `width` characters. A text
/// that is already that long or longer stays as it is.
pub open spec fn padded(text: Seq<char>, width: nat) -> Seq<char> {
    if text.len() >= width {
        text
    } else {
        text + spaces((width - text.len()) as nat)
    }
}

/// The decimal digit for a value from 0 to 9.
pub open spec fn decimal_digit(value: nat) -> char {
    ('0' as int + value) as char
}

/// `n` in decimal, without leading zeros.
pub open spec fn decimal(n: nat) -> Seq<char>
    decreases n,
{
    if n < 10 {
        seq![decimal_digit(n)]
    } else {
        decimal(n / 10).push(decimal_digit(n % 10))
    }
}

/// Fills `text` up with spaces on the right to `width` characters.
pub fn pad_right(text: &str, width: usize) -> (out: String)
    ensures
        out@ == padded(text@, width as nat),
{
    let mut out = text.to_owned();
    let len: usize = text.unicode_len();
    let mut reached: usize = len;
    while reached < width
        invariant
            len == text@.len(),
            len <= reached,
            len < width ==> reached <= width,
            len >= width ==> reached == len,
            out@ == text@ + spaces((reached - len) as nat),
        decreases width - reached,
    {
        out.push(' ');
        reached = reached + 1;
    }
    out
}

/// Appends `n` in decimal to `text`.
pub fn push_decimal(text: &mut String, n: u16)
    ensures
        final(text)@ == old(text)@ + decimal(n as nat),
    decreases n,
{
    if n >= 10 {
        push_decimal(text, n / 10);
    }
    let digit: u8 = (n % 10) as u8;
    text.push(('0' as u8 + digit) as char);
}

} // verus!
