//! Display buffers for a terminal viewer of binary data.
//!
//! A byte sequence is laid out as lines of hexadecimal digits and as lines of
//! printable characters, sixteen bytes to the line; an annotation tree is laid
//! out as indented lines; the three columns are then joined row by row. The
//! interactive loop of the viewer is given as a state machine that a driver
//! runs against the terminal.

pub mod alignment;
pub mod annotation;
pub mod ascii;
pub mod compose;
pub mod error;
pub mod hexdump;
pub mod session;
pub mod text;
pub mod window;
