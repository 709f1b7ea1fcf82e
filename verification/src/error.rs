//! Lays out a window with an error message.

use vstd::prelude::*;
use vstd::string::StrSliceExecFns;
use vstd::string::StringExecFns;

verus! {

/// The width of the error window in cells.
pub const WIDTH: u32 = 51;

/// The height of the error window in cells.
pub const HEIGHT: u32 = 19;

/// A line of text in the window, and the cell at which it starts.
#[derive(Clone, Debug)]
pub struct Line {
    pub text: String,
    pub x: u32,
    pub y: u32,
}

/// The error window: what it shows.
#[derive(Clone, Debug)]
pub struct ErrorWindow {
    pub lines: Vec<Line>,
}

/// The column at which a text of `length` characters starts when it is
/// centered; a text wider than the window starts at its left edge.
pub open spec fn centered(length: nat) -> u32 {
    if length <= WIDTH {
        ((WIDTH - length) / 2) as u32
    } else {
        0
    }
}

/// Whether `line` is `text` centered in row `y`.
pub open spec fn is_centered(line: Line, text: Seq<char>, y: int) -> bool {
    line.text@ == text && line.x == centered(text.len()) && line.y == y
}

/// Centers `text` in row `y`.
fn center(text: &str, y: u32) -> (line: Line)
    ensures
        is_centered(line, text@, y as int),
{
    let length = text.unicode_len();
    let x = if length <= WIDTH as usize {
        (WIDTH - length as u32) / 2
    } else {
        0
    };
    Line { text: String::from_str(text), x, y }
}

impl ErrorWindow {
    /// Creates a new error window with the given message: the title in the
    /// fourth row, and the lines of the message from the seventh row down,
    /// each centered.
    pub fn new(messages: &Vec<String>) -> (window: ErrorWindow)
        requires
            messages.len() + 6 <= u32::MAX,
        ensures
            window.lines.len() == messages.len() + 1,
            is_centered(window.lines[0], "Error"@, 3),
            forall|i: int|
                1 <= i < window.lines.len() ==> is_centered(
                    #[trigger] window.lines[i],
                    messages[i - 1]@,
                    5 + i,
                ),
    {
        let mut lines: Vec<Line> = Vec::new();
        lines.push(center("Error", 3));
        let mut i: usize = 0;
        while i < messages.len()
            invariant
                i <= messages.len(),
                messages.len() + 6 <= u32::MAX,
                lines.len() == i + 1,
                is_centered(lines[0], "Error"@, 3),
                forall|j: int|
                    1 <= j < lines.len() ==> is_centered(
                        #[trigger] lines[j],
                        messages[j - 1]@,
                        5 + j,
                    ),
            decreases messages.len() - i,
        {
            lines.push(center(messages[i].as_str(), 6 + i as u32));
            i += 1;
        }
        ErrorWindow { lines }
    }
}

} // verus!
