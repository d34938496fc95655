//! How the hexadecimal column and the character column line up.

use vstd::prelude::*;
use crate::ascii::{ascii_line, ascii_lines, glyph};
use crate::hexdump::{hex_digit, hex_line, hex_lines, separator_count};
use crate::window::window;

verus! {

/// The column of a hexadecimal line at which the first digit of byte `j` of
/// the line stands.
pub open spec fn digit_column(j: int) -> int {
    5 * (j / 2) + 2 * (j % 2)
}

/// The two columns have the same number of lines, and line `row` of each
/// describes the same window of the data: the character line shows at column
/// `j` the byte at offset `16 * row + j`, and the hexadecimal line shows the
/// two digits of that same byte.
pub proof fn lemma_rows_share_window(bytes: Seq<u8>, row: int)
    requires
        0 <= row < hex_lines(bytes).len(),
        0 <= row < ascii_lines(bytes).len(),
    ensures
        hex_lines(bytes).len() == ascii_lines(bytes).len(),
        hex_lines(bytes)[row] == hex_line(window(bytes, row)),
        ascii_lines(bytes)[row] == ascii_line(window(bytes, row)),
        ascii_lines(bytes)[row].len() == window(bytes, row).len(),
        hex_lines(bytes)[row].len() == 2 * window(bytes, row).len() + separator_count(
            2 * window(bytes, row).len(),
        ),
        forall|j: int|
            0 <= j < window(bytes, row).len() ==> {
                &&& 0 <= 16 * row + j < bytes.len()
                &&& #[trigger] ascii_lines(bytes)[row][j] == glyph(bytes[16 * row + j])
                &&& hex_lines(bytes)[row][digit_column(j)] == hex_digit(
                    bytes[16 * row + j] as int / 16,
                )
                &&& hex_lines(bytes)[row][digit_column(j) + 1] == hex_digit(
                    bytes[16 * row + j] as int % 16,
                )
            },
{
}

} // verus!
