//! The printable-character column.

use vstd::prelude::*;
use crate::window::{line_count, window, BYTES_PER_LINE};

verus! {

/// What stands for a byte that has no printable character.
pub const PLACEHOLDER: char = '.';

/// Whether `byte` is a printable ASCII character (space to tilde).
pub open spec fn is_printable(byte: u8) -> bool {
    32 <= byte <= 126
}

/// The character shown for `byte`.
pub open spec fn glyph(byte: u8) -> char {
    if is_printable(byte) {
        byte as char
    } else {
        PLACEHOLDER
    }
}

/// The text of one line: one character for each byte of its window.
pub open spec fn ascii_line(bytes: Seq<u8>) -> Seq<char> {
    Seq::new(bytes.len(), |j: int| glyph(bytes[j]))
}

/// The whole column: one line for each window of `bytes`.
pub open spec fn ascii_lines(bytes: Seq<u8>) -> Seq<Seq<char>> {
    Seq::new(line_count(bytes.len()), |row: int| ascii_line(window(bytes, row)))
}

/// The column has one line for every sixteen bytes, rounded up, and none
/// for empty data. Each line has one character for each byte of its window:
/// the byte's own character where the byte is printable, a dot where not.
pub proof fn lemma_ascii_line_shape(bytes: Seq<u8>)
    ensures
        ascii_lines(bytes).len() == (bytes.len() + 15) / 16,
        bytes.len() == 0 ==> ascii_lines(bytes).len() == 0,
        forall|row: int|
            0 <= row < ascii_lines(bytes).len() - 1 ==> (#[trigger] ascii_lines(bytes)[row]).len()
                == 16,
        forall|row: int|
            0 <= row < ascii_lines(bytes).len() ==> 1 <= (#[trigger] ascii_lines(bytes)[row]).len()
                <= 16,
        bytes.len() > 0 ==> ascii_lines(bytes).last().len() == bytes.len() - 16 * (ascii_lines(
            bytes,
        ).len() - 1),
        forall|row: int, j: int|
            0 <= row < ascii_lines(bytes).len() && 0 <= j < ascii_lines(bytes)[row].len() ==> {
                let byte = bytes[16 * row + j];
                &&& 0 <= 16 * row + j < bytes.len()
                &&& is_printable(byte) ==> #[trigger] ascii_lines(bytes)[row][j] == byte as char
                &&& !is_printable(byte) ==> ascii_lines(bytes)[row][j] == PLACEHOLDER
            },
{
}

/// The character shown for one byte.
pub fn glyph_of(byte: u8) -> (ch: char)
    ensures
        ch == glyph(byte),
{
    if byte >= 32 && byte < 127 {
        byte as char
    } else {
        PLACEHOLDER
    }
}

/// Lays `file_data` out as lines of sixteen characters, the last line shorter
/// when the length is no multiple of sixteen. Empty data gives no line.
pub fn build_ascii_buffer(file_data: &Vec<u8>) -> (lines: Vec<String>)
    ensures
        lines.deep_view() == ascii_lines(file_data@),
{
    let mut lines: Vec<String> = Vec::new();
    let mut line = String::new();
    let mut i: usize = 0;
    while i < file_data.len()
        invariant
            i <= file_data.len(),
            lines.len() == i / 16,
            forall|row: int|
                0 <= row < lines.len() ==> (#[trigger] lines[row])@ == ascii_line(
                    window(file_data@, row),
                ),
            line@ == ascii_line(file_data@.subrange(16 * (i as int / 16), i as int)),
        decreases file_data.len() - i,
    {
        line.push(glyph_of(file_data[i]));
        if i % BYTES_PER_LINE == BYTES_PER_LINE - 1 {
            lines.push(line);
            line = String::new();
        }
        i = i + 1;
    }
    if !line.as_str().is_empty() {
        lines.push(line);
    }
    lines
}

} // verus!
