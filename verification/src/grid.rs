//! The cell grid decoder: one line of text and one line of colors become one
//! row of cells.

use vstd::prelude::*;

use crate::color::{character_to_hex, digit_index, is_palette_digit, palette};
use crate::failure::FrameError;
use crate::text::characters;

verus! {

/// One cell of the display: a character and the two colors it is drawn in,
/// as packed RGB values.
#[derive(Clone, Copy, Debug, PartialEq, Eq, Structural)]
pub struct Cell {
    pub character: char,
    pub foreground: u32,
    pub background: u32,
}

impl Cell {
    /// A cell that shows `character` in `foreground` on `background`.
    pub fn new(character: char, foreground: u32, background: u32) -> (cell: Cell)
        ensures
            cell == (Cell { character, foreground, background }),
    {
        Cell { character, foreground, background }
    }
}

/// Whether a text line and a color line describe a row of `width` cells: the
/// text has a character for every cell, and the color line is exactly two
/// palette digits per cell.
pub open spec fn row_is_well_formed(width: nat, text: Seq<char>, colors: Seq<char>) -> bool {
    &&& text.len() >= width
    &&& colors.len() == 2 * width
    &&& forall|i: int| 0 <= i < colors.len() ==> is_palette_digit(#[trigger] colors[i])
}

/// The cell at column `x` of a row of `width` cells.  The first `width`
/// digits of the color line are the background colors, the second `width`
/// digits the foreground colors.
pub open spec fn cell_at(width: nat, text: Seq<char>, colors: Seq<char>, x: int) -> Cell {
    Cell {
        character: text[x],
        foreground: palette(digit_index(colors[x + width])),
        background: palette(digit_index(colors[x])),
    }
}

/// The cells of a row, left to right.
pub open spec fn row_cells(width: nat, text: Seq<char>, colors: Seq<char>) -> Seq<Cell> {
    Seq::new(width, |x: int| cell_at(width, text, colors, x))
}

/// What `decode_row` makes of a line pair.
pub open spec fn decoded_row(width: nat, text: Seq<char>, colors: Seq<char>) -> Result<
    Seq<Cell>,
    FrameError,
> {
    if row_is_well_formed(width, text, colors) {
        Ok(row_cells(width, text, colors))
    } else {
        Err(FrameError::MalformedFrameData)
    }
}

/// Whether `result` is `expected`, the cells taken by their view.
pub open spec fn is_decoded(
    result: Result<Vec<Cell>, FrameError>,
    expected: Result<Seq<Cell>, FrameError>,
) -> bool {
    match result {
        Ok(cells) => expected == Ok::<Seq<Cell>, FrameError>(cells@),
        Err(error) => expected == Err::<Seq<Cell>, FrameError>(error),
    }
}

/// Decodes one row of `width` cells from a line of text and a line of
/// colors.  A pair that is not well formed gives `MalformedFrameData`, and
/// nothing else does.
pub fn decode_row(width: u32, text: &str, color_line: &str) -> (result: Result<
    Vec<Cell>,
    FrameError,
>)
    ensures
        is_decoded(result, decoded_row(width as nat, text@, color_line@)),
{
    let letters = characters(text);
    let digits = characters(color_line);
    if (letters.len() as u64) < width as u64 || digits.len() as u64 != 2 * (width as u64) {
        return Err(FrameError::MalformedFrameData);
    }
    let count = width as usize;
    let mut cells: Vec<Cell> = Vec::new();
    let mut x: usize = 0;
    while x < count
        invariant
            x <= count,
            count == width,
            letters@ == text@,
            digits@ == color_line@,
            letters.len() >= count,
            digits.len() == 2 * count,
            cells.len() == x,
            forall|i: int| 0 <= i < x ==> is_palette_digit(#[trigger] digits@[i]),
            forall|i: int| count <= i < count + x ==> is_palette_digit(#[trigger] digits@[i]),
            forall|i: int|
                0 <= i < x ==> #[trigger] cells@[i] == cell_at(
                    width as nat,
                    text@,
                    color_line@,
                    i,
                ),
        decreases count - x,
    {
        let background = match character_to_hex(digits[x]) {
            Ok(color) => color,
            Err(_) => {
                return Err(FrameError::MalformedFrameData);
            },
        };
        let foreground = match character_to_hex(digits[x + count]) {
            Ok(color) => color,
            Err(_) => {
                return Err(FrameError::MalformedFrameData);
            },
        };
        cells.push(Cell::new(letters[x], foreground, background));
        x += 1;
    }
    proof {
        assert forall|i: int| 0 <= i < digits@.len() implies is_palette_digit(
            #[trigger] digits@[i],
        ) by {
            if i >= count {
                assert(count <= i < count + x);
            }
        }
        assert(cells@ =~= row_cells(width as nat, text@, color_line@));
    }
    Ok(cells)
}

/// A decoded row has one cell per column, and each cell holds the character
/// of its column, the color of its digit in the first half of the color line
/// as background and the color of its digit in the second half as foreground.
pub proof fn lemma_decoded_row_cells(width: nat, text: Seq<char>, colors: Seq<char>, x: int)
    requires
        row_is_well_formed(width, text, colors),
        0 <= x < width,
    ensures
        decoded_row(width, text, colors) matches Ok(cells) && cells.len() == width
            && cells[x].character == text[x] && cells[x].background == palette(
            digit_index(colors[x]),
        ) && cells[x].foreground == palette(digit_index(colors[x + width])),
{
}

/// A color line of any length but twice the width is refused.
pub proof fn lemma_wrong_length_is_malformed(width: nat, text: Seq<char>, colors: Seq<char>)
    requires
        colors.len() != 2 * width,
    ensures
        decoded_row(width, text, colors) == Err::<Seq<Cell>, FrameError>(
            FrameError::MalformedFrameData,
        ),
{
}

/// One line of the display as the emulated machine hands it over: its text,
/// and the colors of its cells as palette digits.
#[derive(Clone, Debug)]
pub struct LinePair {
    pub text: String,
    pub colors: String,
}

/// Whether `lines` describe a display of `height` rows of `width` cells.
pub open spec fn frame_is_well_formed(width: nat, height: nat, lines: Seq<LinePair>) -> bool {
    &&& lines.len() == height
    &&& forall|y: int|
        0 <= y < lines.len() ==> row_is_well_formed(
            width,
            (#[trigger] lines[y]).text@,
            lines[y].colors@,
        )
}

/// Whether `rows` are the decoded `lines`, top to bottom.
pub open spec fn is_decoded_frame(rows: Seq<Vec<Cell>>, width: nat, lines: Seq<LinePair>) -> bool {
    &&& rows.len() == lines.len()
    &&& forall|y: int|
        0 <= y < rows.len() ==> (#[trigger] rows[y])@ == row_cells(
            width,
            lines[y].text@,
            lines[y].colors@,
        )
}

/// Decodes a whole display of `height` rows of `width` cells.  It is all or
/// nothing: one line pair that is not well formed, or a wrong number of
/// them, gives `MalformedFrameData` and no rows.
pub fn decode_frame(width: u32, height: u32, lines: &Vec<LinePair>) -> (result: Result<
    Vec<Vec<Cell>>,
    FrameError,
>)
    ensures
        match result {
            Ok(rows) => frame_is_well_formed(width as nat, height as nat, lines@)
                && is_decoded_frame(rows@, width as nat, lines@),
            Err(error) => error == FrameError::MalformedFrameData && !frame_is_well_formed(
                width as nat,
                height as nat,
                lines@,
            ),
        },
{
    if lines.len() as u64 != height as u64 {
        return Err(FrameError::MalformedFrameData);
    }
    let mut rows: Vec<Vec<Cell>> = Vec::new();
    let mut y: usize = 0;
    while y < lines.len()
        invariant
            y <= lines.len(),
            lines.len() == height,
            rows.len() == y,
            forall|i: int|
                0 <= i < y ==> row_is_well_formed(
                    width as nat,
                    (#[trigger] lines@[i]).text@,
                    lines@[i].colors@,
                ),
            forall|i: int|
                0 <= i < y ==> (#[trigger] rows@[i])@ == row_cells(
                    width as nat,
                    lines@[i].text@,
                    lines@[i].colors@,
                ),
        decreases lines.len() - y,
    {
        let line = &lines[y];
        match decode_row(width, line.text.as_str(), line.colors.as_str()) {
            Ok(cells) => {
                rows.push(cells);
            },
            Err(_) => {
                assert(!row_is_well_formed(
                    width as nat,
                    lines@[y as int].text@,
                    lines@[y as int].colors@,
                ));
                return Err(FrameError::MalformedFrameData);
            },
        }
        y += 1;
    }
    Ok(rows)
}

} // verus!
