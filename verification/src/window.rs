//! The sixteen-byte windows that one display line covers.

use vstd::prelude::*;

verus! {

/// Number of data bytes that one display line describes.
pub const BYTES_PER_LINE: usize = 16;

/// Number of lines needed for `len` bytes: the last one may be partial.
pub open spec fn line_count(len: nat) -> nat {
    ((len + 15) / 16) as nat
}

/// First byte offset of line `row`.
pub open spec fn window_start(row: int) -> int {
    16 * row
}

/// Offset one past the last byte of line `row` in data of `len` bytes.
pub open spec fn window_end(len: nat, row: int) -> int {
    if 16 * row + 16 <= len {
        16 * row + 16
    } else {
        len as int
    }
}

/// The bytes that line `row` describes.
pub open spec fn window(bytes: Seq<u8>, row: int) -> Seq<u8> {
    bytes.subrange(window_start(row), window_end(bytes.len(), row))
}

} // verus!
