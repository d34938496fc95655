//! The hexadecimal column.
//!
//! Every byte is written as two lowercase hexadecimal digits. The digits are
//! cut into lines of thirty-two, which is sixteen bytes to the line, and on
//! each line a space separates the groups of four digits.

use vstd::prelude::*;
use crate::window::{line_count, window};

verus! {

/// Hexadecimal digits on one full line: two for each of sixteen bytes.
pub const DIGITS_PER_LINE: usize = 32;

/// Digits between two grouping spaces.
pub const DIGITS_PER_GROUP: usize = 4;

/// The lowercase hexadecimal digit for a value from 0 to 15.
pub open spec fn hex_digit(value: int) -> char {
    if value < 10 {
        ('0' as int + value) as char
    } else {
        ('a' as int + value - 10) as char
    }
}

/// Whether `ch` is a lowercase hexadecimal digit.
pub open spec fn is_hex_digit(ch: char) -> bool {
    ('0' <= ch && ch <= '9') || ('a' <= ch && ch <= 'f')
}

/// The digits of `bytes` in order: for each byte the digit of its high four
/// bits, then the digit of its low four bits.
pub open spec fn hex_text(bytes: Seq<u8>) -> Seq<char> {
    Seq::new(
        2 * bytes.len(),
        |k: int|
            if k % 2 == 0 {
                hex_digit(bytes[k / 2] as int / 16)
            } else {
                hex_digit(bytes[k / 2] as int % 16)
            },
    )
}

/// Number of spaces that separate the groups of `len` digits.
pub open spec fn separator_count(len: nat) -> nat {
    if len == 0 {
        0
    } else {
        ((len - 1) / 4) as nat
    }
}

/// The digits of `digits` in groups of four, with a space between one group
/// and the next.
pub open spec fn grouped(digits: Seq<char>) -> Seq<char> {
    Seq::new(
        digits.len() + separator_count(digits.len()),
        |p: int|
            if p % 5 == 4 {
                ' '
            } else {
                digits[4 * (p / 5) + p % 5]
            },
    )
}

/// Number of lines that `len` digits fill.
pub open spec fn wrapped_count(len: nat) -> nat {
    ((len + 31) / 32) as nat
}

/// The digits that go on line `row`.
pub open spec fn digit_window(digits: Seq<char>, row: int) -> Seq<char> {
    digits.subrange(
        32 * row,
        if 32 * row + 32 <= digits.len() {
            32 * row + 32
        } else {
            digits.len() as int
        },
    )
}

/// `digits` cut into lines of thirty-two, each line grouped by four.
pub open spec fn wrapped(digits: Seq<char>) -> Seq<Seq<char>> {
    Seq::new(wrapped_count(digits.len()), |row: int| grouped(digit_window(digits, row)))
}

/// The text of one line: the grouped digits of the bytes of its window.
pub open spec fn hex_line(bytes: Seq<u8>) -> Seq<char> {
    grouped(hex_text(bytes))
}

/// The whole column: one line for each window of `bytes`.
pub open spec fn hex_lines(bytes: Seq<u8>) -> Seq<Seq<char>> {
    Seq::new(line_count(bytes.len()), |row: int| hex_line(window(bytes, row)))
}

/// Number of hexadecimal digits in `text`.
pub open spec fn digit_count(text: Seq<char>) -> nat
    decreases text.len(),
{
    if text.len() == 0 {
        0
    } else {
        digit_count(text.drop_last()) + if is_hex_digit(text.last()) {
            1nat
        } else {
            0nat
        }
    }
}

/// Appending one digit to the digits of a line appends it to the grouped
/// text, after a space when it begins a new group.
pub proof fn lemma_grouped_push(digits: Seq<char>, digit: char)
    ensures
        digits.len() == 0 || digits.len() % 4 != 0 ==> grouped(digits.push(digit)) == grouped(
            digits,
        ).push(digit),
        digits.len() > 0 && digits.len() % 4 == 0 ==> grouped(digits.push(digit)) == grouped(
            digits,
        ).push(' ').push(digit),
{
}

/// Grouping adds spaces and nothing else: a grouped text holds as many
/// hexadecimal digits as went into it.
pub proof fn lemma_grouped_digit_count(digits: Seq<char>)
    requires
        forall|k: int| 0 <= k < digits.len() ==> is_hex_digit(#[trigger] digits[k]),
    ensures
        grouped(digits).len() == digits.len() + separator_count(digits.len()),
        digit_count(grouped(digits)) == digits.len(),
    decreases digits.len(),
{
    if digits.len() > 0 {
        let shorter = digits.drop_last();
        let digit = digits.last();
        assert(shorter.push(digit) =~= digits);
        lemma_grouped_digit_count(shorter);
        lemma_grouped_push(shorter, digit);
        if shorter.len() > 0 && shorter.len() % 4 == 0 {
            let with_space = grouped(shorter).push(' ');
            assert(with_space.drop_last() =~= grouped(shorter));
            assert(digit_count(with_space) == digit_count(grouped(shorter)));
            assert(with_space.push(digit).drop_last() =~= with_space);
        } else {
            assert(grouped(shorter).push(digit).drop_last() =~= grouped(shorter));
        }
    }
}

/// Cutting the digits of all the bytes into lines gives, line by line, the
/// digits of each sixteen-byte window.
pub proof fn lemma_wrapped_hex_text(bytes: Seq<u8>)
    ensures
        wrapped(hex_text(bytes)) == hex_lines(bytes),
{
    let digits = hex_text(bytes);
    assert forall|row: int| 0 <= row < line_count(bytes.len()) implies grouped(
        digit_window(digits, row),
    ) == hex_line(window(bytes, row)) by {}
}

/// `hex::encode` of the hex crate, on a vector of bytes: the result holds two
/// lowercase hexadecimal digits for each byte, in the order of the bytes, the
/// digit of the high four bits first.
#[verifier::external_body]
fn encode(data: &Vec<u8>) -> (digits: String)
    ensures
        digits@ == hex_text(data@),
{
    hex::encode(data)
}

/// Cuts a text of digits into lines of thirty-two digits, the last line
/// shorter when digits are left over, and puts a space between the groups of
/// four digits of each line.
pub fn group_digits(digits: &str) -> (lines: Vec<String>)
    ensures
        lines.deep_view() == wrapped(digits@),
{
    let mut lines: Vec<String> = Vec::new();
    let mut line = String::new();
    let mut filled: usize = 0;
    let chars = digits.chars();
    for digit in it: chars
        invariant
            it.seq() == digits@,
            filled < 32,
            filled == it.index() % 32,
            lines.len() == it.index() / 32,
            forall|row: int|
                0 <= row < lines.len() ==> (#[trigger] lines[row])@ == grouped(
                    digit_window(digits@, row),
                ),
            line@ == grouped(digits@.subrange(it.index() - filled, it.index())),
    {
        if filled > 0 && filled % DIGITS_PER_GROUP == 0 {
            line.push(' ');
        }
        line.push(digit);
        filled = filled + 1;
        if filled == DIGITS_PER_LINE {
            lines.push(line);
            line = String::new();
            filled = 0;
        }
    }
    if !line.as_str().is_empty() {
        lines.push(line);
    }
    lines
}

/// Lays `file_data` out as lines of hexadecimal digits, sixteen bytes to the
/// line, with a space between one pair of bytes and the next. Empty data
/// gives no line.
pub fn build_hex_buffer(file_data: &Vec<u8>) -> (lines: Vec<String>)
    ensures
        lines.deep_view() == hex_lines(file_data@),
{
    let encoded = encode(file_data);
    proof {
        lemma_wrapped_hex_text(file_data@);
    }
    group_digits(encoded.as_str())
}

/// The column has one line for every thirty-two digits, rounded up. Every
/// line but the last holds thirty-two digits and the seven spaces between
/// their groups; the last holds the digits that are left over, or thirty-two
/// when none are. No line is empty or longer than thirty-nine characters,
/// and on every line each fifth character is a space and the others are
/// digits.
pub proof fn lemma_hex_line_shape(bytes: Seq<u8>)
    ensures
        hex_lines(bytes).len() == (2 * bytes.len() + 31) / 32,
        bytes.len() == 0 ==> hex_lines(bytes).len() == 0,
        forall|row: int|
            0 <= row < hex_lines(bytes).len() - 1 ==> digit_count(#[trigger] hex_lines(bytes)[row])
                == 32 && hex_lines(bytes)[row].len() == 39,
        (2 * bytes.len()) % 32 != 0 ==> digit_count(hex_lines(bytes).last()) == (2 * bytes.len())
            % 32,
        bytes.len() > 0 && (2 * bytes.len()) % 32 == 0 ==> digit_count(hex_lines(bytes).last())
            == 32,
        forall|row: int|
            0 <= row < hex_lines(bytes).len() ==> 1 <= (#[trigger] hex_lines(bytes)[row]).len()
                <= 39,
        forall|row: int, p: int|
            0 <= row < hex_lines(bytes).len() && 0 <= p < hex_lines(bytes)[row].len() ==> {
                let ch = #[trigger] hex_lines(bytes)[row][p];
                &&& p % 5 == 4 ==> ch == ' '
                &&& p % 5 != 4 ==> is_hex_digit(ch)
            },
{
    let count = line_count(bytes.len());
    assert forall|row: int| 0 <= row < count implies digit_count(#[trigger] hex_lines(bytes)[row])
        == 2 * window(bytes, row).len() && hex_lines(bytes)[row].len() == 2 * window(
        bytes,
        row,
    ).len() + separator_count(2 * window(bytes, row).len()) by {
        lemma_grouped_digit_count(hex_text(window(bytes, row)));
    }
}

} // verus!
