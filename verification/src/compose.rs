//! Joining the three columns into rows.
//!
//! The columns are made independently and may differ in length. The rows run
//! as long as any column has a line; a column that has run out gives an empty
//! field. No line of a longer column is dropped.

use vstd::prelude::*;
use crate::annotation::{build_nugget_buffer, flatten, AnnotationNode};
use crate::ascii::{ascii_lines, build_ascii_buffer};
use crate::hexdump::{build_hex_buffer, hex_lines};
use crate::text::{pad_right, padded, spaces};

verus! {

/// Width of the hexadecimal field of a row.
pub const HEX_WIDTH: usize = 40;

/// Width of the printable-character field of a row.
pub const ASCII_WIDTH: usize = 16;

/// The row that is shown highlighted.
pub const HIGHLIGHT_ROW: usize = 2;

/// The text attributes that a row uses.
#[derive(Clone, Copy, Debug, PartialEq, Eq)]
pub enum TextAttribute {
    /// Foreground and background swapped.
    Reverse,
    /// All attributes off.
    Reset,
}

/// One row of the display: a line of each column, empty where the column has
/// no line at this row.
#[derive(Debug, PartialEq, Eq)]
pub struct CompositeRow {
    pub hex: String,
    pub ascii: String,
    pub annotation: String,
    /// Whether the hexadecimal field is shown highlighted.
    pub highlighted: bool,
}

/// A row as a mathematical value.
pub struct RowText {
    pub hex: Seq<char>,
    pub ascii: Seq<char>,
    pub annotation: Seq<char>,
    pub highlighted: bool,
}

impl View for CompositeRow {
    type V = RowText;

    open spec fn view(&self) -> RowText {
        RowText {
            hex: self.hex@,
            ascii: self.ascii@,
            annotation: self.annotation@,
            highlighted: self.highlighted,
        }
    }
}

impl DeepView for CompositeRow {
    type V = RowText;

    open spec fn deep_view(&self) -> RowText {
        self@
    }
}

/// The escape sequence that selects `attribute` on a terminal.
pub open spec fn attribute_sequence(attribute: TextAttribute) -> Seq<char> {
    match attribute {
        TextAttribute::Reverse => seq!['\u{1b}', '[', '7', 'm'],
        TextAttribute::Reset => seq!['\u{1b}', '[', '0', 'm'],
    }
}

/// Whether `code` is a text that selects `attribute`: its escape sequence,
/// or nothing on a console that takes no escape sequences.
pub open spec fn is_attribute_code(attribute: TextAttribute, code: Seq<char>) -> bool {
    code == attribute_sequence(attribute) || code.len() == 0
}

/// The line of `column` at `row`, or the empty text past its end.
pub open spec fn cell(column: Seq<Seq<char>>, row: int) -> Seq<char> {
    if 0 <= row < column.len() {
        column[row]
    } else {
        Seq::empty()
    }
}

/// Number of rows for columns of these lengths: the greatest of them.
pub open spec fn row_count(hex: nat, ascii: nat, annotation: nat) -> nat {
    if hex >= ascii && hex >= annotation {
        hex
    } else if ascii >= annotation {
        ascii
    } else {
        annotation
    }
}

/// The rows of three columns, with row `highlight` highlighted.
pub open spec fn composed(
    hex: Seq<Seq<char>>,
    ascii: Seq<Seq<char>>,
    annotation: Seq<Seq<char>>,
    highlight: int,
) -> Seq<RowText> {
    Seq::new(
        row_count(hex.len(), ascii.len(), annotation.len()),
        |row: int|
            RowText {
                hex: cell(hex, row),
                ascii: cell(ascii, row),
                annotation: cell(annotation, row),
                highlighted: row == highlight,
            },
    )
}

/// The printed line of a row: the hexadecimal field, filled up to forty
/// columns; three spaces; the character field, filled up to sixteen columns;
/// four spaces; the annotation. On a highlighted row `highlight_on` stands
/// before the hexadecimal field and `highlight_off` after it.
pub open spec fn rendered(row: RowText, highlight_on: Seq<char>, highlight_off: Seq<char>) -> Seq<
    char,
> {
    let hex = padded(row.hex, HEX_WIDTH as nat);
    let field = if row.highlighted {
        highlight_on + hex + highlight_off
    } else {
        hex
    };
    field + spaces(3) + padded(row.ascii, ASCII_WIDTH as nat) + spaces(4) + row.annotation
}

/// The printed lines of `rows`.
pub open spec fn rendered_rows(
    rows: Seq<RowText>,
    highlight_on: Seq<char>,
    highlight_off: Seq<char>,
) -> Seq<Seq<char>> {
    Seq::new(rows.len(), |row: int| rendered(rows[row], highlight_on, highlight_off))
}

/// There are as many rows as the longest column has lines, and none when
/// all columns are empty. A row past the end of a column has an empty field
/// for that column; a row within it has the column's line.
pub proof fn lemma_composed_rows(
    hex: Seq<Seq<char>>,
    ascii: Seq<Seq<char>>,
    annotation: Seq<Seq<char>>,
    highlight: int,
)
    ensures
        composed(hex, ascii, annotation, highlight).len() >= hex.len(),
        composed(hex, ascii, annotation, highlight).len() >= ascii.len(),
        composed(hex, ascii, annotation, highlight).len() >= annotation.len(),
        composed(hex, ascii, annotation, highlight).len() == hex.len() || composed(
            hex,
            ascii,
            annotation,
            highlight,
        ).len() == ascii.len() || composed(hex, ascii, annotation, highlight).len()
            == annotation.len(),
        hex.len() == 0 && ascii.len() == 0 && annotation.len() == 0 ==> composed(
            hex,
            ascii,
            annotation,
            highlight,
        ).len() == 0,
        forall|row: int|
            0 <= row < composed(hex, ascii, annotation, highlight).len() ==> {
                let r = #[trigger] composed(hex, ascii, annotation, highlight)[row];
                &&& r.hex == if row < hex.len() {
                    hex[row]
                } else {
                    Seq::empty()
                }
                &&& r.ascii == if row < ascii.len() {
                    ascii[row]
                } else {
                    Seq::empty()
                }
                &&& r.annotation == if row < annotation.len() {
                    annotation[row]
                } else {
                    Seq::empty()
                }
                &&& r.highlighted == (row == highlight)
            },
{
}

/// A row that is not highlighted and whose fields fit their widths is laid
/// out in fixed columns: the hexadecimal field from column 0, the character
/// field from column 43, the annotation from column 63, and blanks between
/// them. An empty field is all blanks.
pub proof fn lemma_rendered_columns(row: RowText, highlight_on: Seq<char>, highlight_off: Seq<char>)
    requires
        !row.highlighted,
        row.hex.len() <= HEX_WIDTH,
        row.ascii.len() <= ASCII_WIDTH,
    ensures
        rendered(row, highlight_on, highlight_off).len() == 63 + row.annotation.len(),
        rendered(row, highlight_on, highlight_off).subrange(0, row.hex.len() as int) == row.hex,
        rendered(row, highlight_on, highlight_off).subrange(43, 43 + row.ascii.len() as int)
            == row.ascii,
        rendered(row, highlight_on, highlight_off).subrange(63, 63 + row.annotation.len() as int)
            == row.annotation,
        forall|p: int|
            row.hex.len() <= p < 43 || 43 + row.ascii.len() <= p < 63 ==> #[trigger] rendered(
                row,
                highlight_on,
                highlight_off,
            )[p] == ' ',
{
}

/// `Display` of `crossterm::style::Attribute`, for `Reverse` and `Reset`: the
/// text is the escape character, `[`, the number of the attribute (7 and 0)
/// and `m`; on a Windows console without support for escape sequences it is
/// empty.
#[verifier::external_body]
fn attribute_code(attribute: TextAttribute) -> (code: String)
    ensures
        is_attribute_code(attribute, code@),
{
    match attribute {
        TextAttribute::Reverse => crossterm::style::Attribute::Reverse.to_string(),
        TextAttribute::Reset => crossterm::style::Attribute::Reset.to_string(),
    }
}

/// The line of `column` at `row`, or the empty text past its end.
fn cell_at(column: &Vec<String>, row: usize) -> (text: String)
    ensures
        text@ == cell(column.deep_view(), row as int),
{
    if row < column.len() {
        column[row].clone()
    } else {
        String::new()
    }
}

/// Joins the three columns into rows and marks row `highlight_row`.
pub fn compose_rows(
    hex: &Vec<String>,
    ascii: &Vec<String>,
    annotation: &Vec<String>,
    highlight_row: usize,
) -> (rows: Vec<CompositeRow>)
    ensures
        rows.deep_view() == composed(
            hex.deep_view(),
            ascii.deep_view(),
            annotation.deep_view(),
            highlight_row as int,
        ),
{
    let mut count: usize = hex.len();
    if ascii.len() > count {
        count = ascii.len();
    }
    if annotation.len() > count {
        count = annotation.len();
    }
    let mut rows: Vec<CompositeRow> = Vec::new();
    let mut i: usize = 0;
    while i < count
        invariant
            i <= count,
            count == row_count(hex.len() as nat, ascii.len() as nat, annotation.len() as nat),
            rows.len() == i,
            forall|row: int|
                0 <= row < i ==> (#[trigger] rows[row])@ == composed(
                    hex.deep_view(),
                    ascii.deep_view(),
                    annotation.deep_view(),
                    highlight_row as int,
                )[row],
        decreases count - i,
    {
        let row = CompositeRow {
            hex: cell_at(hex, i),
            ascii: cell_at(ascii, i),
            annotation: cell_at(annotation, i),
            highlighted: i == highlight_row,
        };
        rows.push(row);
        i = i + 1;
    }
    rows
}

/// The printed line of `row`, with the given texts around the hexadecimal
/// field where the row is highlighted.
pub fn render_row(row: &CompositeRow, highlight_on: &str, highlight_off: &str) -> (line: String)
    ensures
        line@ == rendered(row@, highlight_on@, highlight_off@),
{
    proof {
        reveal_strlit("   ");
        reveal_strlit("    ");
    }
    let hex = pad_right(row.hex.as_str(), HEX_WIDTH);
    let ascii = pad_right(row.ascii.as_str(), ASCII_WIDTH);
    let mut line = String::new();
    if row.highlighted {
        line.append(highlight_on);
        line.append(hex.as_str());
        line.append(highlight_off);
    } else {
        line.append(hex.as_str());
    }
    line.append("   ");
    line.append(ascii.as_str());
    line.append("    ");
    line.append(row.annotation.as_str());
    line
}

/// The printed lines of `rows`, with the given texts around the hexadecimal
/// field of a highlighted row.
pub fn render_rows_with(rows: &Vec<CompositeRow>, highlight_on: &str, highlight_off: &str) -> (lines:
    Vec<String>)
    ensures
        lines.deep_view() == rendered_rows(rows.deep_view(), highlight_on@, highlight_off@),
{
    let mut lines: Vec<String> = Vec::new();
    let mut i: usize = 0;
    while i < rows.len()
        invariant
            i <= rows.len(),
            lines.len() == i,
            forall|row: int|
                0 <= row < i ==> (#[trigger] lines[row])@ == rendered(
                    rows[row]@,
                    highlight_on@,
                    highlight_off@,
                ),
        decreases rows.len() - i,
    {
        lines.push(render_row(&rows[i], highlight_on, highlight_off));
        i = i + 1;
    }
    lines
}

/// The printed lines of `rows`, a highlighted row shown with foreground and
/// background swapped.
pub fn render_rows(rows: &Vec<CompositeRow>) -> (lines: Vec<String>)
    ensures
        exists|on: Seq<char>, off: Seq<char>|
            is_attribute_code(TextAttribute::Reverse, on) && is_attribute_code(
                TextAttribute::Reset,
                off,
            ) && lines.deep_view() == #[trigger] rendered_rows(rows.deep_view(), on, off),
{
    let on = attribute_code(TextAttribute::Reverse);
    let off = attribute_code(TextAttribute::Reset);
    render_rows_with(rows, on.as_str(), off.as_str())
}

/// The whole display for `file_data` and the annotation tree under `nugget`:
/// the hexadecimal column, the character column and the annotation column
/// side by side, with the third row highlighted.
pub fn render_view(file_data: &Vec<u8>, nugget: &AnnotationNode) -> (lines: Vec<String>)
    ensures
        exists|on: Seq<char>, off: Seq<char>|
            is_attribute_code(TextAttribute::Reverse, on) && is_attribute_code(
                TextAttribute::Reset,
                off,
            ) && lines.deep_view() == #[trigger] rendered_rows(
                composed(
                    hex_lines(file_data@),
                    ascii_lines(file_data@),
                    flatten(nugget@, 0),
                    HIGHLIGHT_ROW as int,
                ),
                on,
                off,
            ),
{
    let hex_buffer = build_hex_buffer(file_data);
    let ascii_buffer = build_ascii_buffer(file_data);
    let nugget_buffer = build_nugget_buffer(nugget);
    let rows = compose_rows(&hex_buffer, &ascii_buffer, &nugget_buffer, HIGHLIGHT_ROW);
    render_rows(&rows)
}

} // verus!
