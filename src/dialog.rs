//! Modal dialogs: their state, their text and how they take keystrokes.
use vstd::prelude::*;

use crate::terminal::Dimensions;
use crate::text::{str_width, str_width_of};

pub mod brush_character;
pub mod colorpicker;
pub mod help;
pub mod open;
pub mod save;

verus! {

/// Line of text in a dialog: as written, and without its escape sequences.
pub struct DialogLine {
    pub original: String,
    pub stripped: String,
}

impl DialogLine {
    /// A line from its text and that text without escape sequences.
    pub fn new(original: String, stripped: String) -> (l: DialogLine)
        ensures
            l.original@ == original@,
            l.stripped@ == stripped@,
    {
        DialogLine { original, stripped }
    }

    /// The display width of the line, escape sequences left out.
    pub fn width(&self) -> (w: usize)
        ensures
            w == str_width_of(self.stripped@),
    {
        str_width(self.stripped.as_str())
    }
}

/// The display width of the first line, zero without lines.
pub open spec fn first_width(lines: Seq<DialogLine>) -> usize {
    if lines.len() > 0 { str_width_of(lines[0].stripped@) } else { 0 }
}

/// The display width of the second line, zero without one.
pub open spec fn second_width(lines: Seq<DialogLine>) -> usize {
    if lines.len() > 1 { str_width_of(lines[1].stripped@) } else { 0 }
}

pub(crate) fn first_line_width(lines: &Vec<DialogLine>) -> (w: usize)
    ensures
        w == first_width(lines@),
{
    if lines.len() > 0 { lines[0].width() } else { 0 }
}

pub(crate) fn second_line_width(lines: &Vec<DialogLine>) -> (w: usize)
    ensures
        w == second_width(lines@),
{
    if lines.len() > 1 { lines[1].width() } else { 0 }
}

/// What a keystroke asks of the screen.
#[derive(Copy, Clone, Debug, PartialEq, Eq, Structural)]
pub enum DialogUpdate {
    /// The keystroke was ignored.
    Unchanged,
    /// Render the dialog again.
    Render,
    /// The dialog shrank: redraw everything.
    Redraw,
}

/// Where a dialog box stands: its left column and top line, both 0-based,
/// and its outer width.
#[derive(Copy, Clone, Debug, PartialEq, Eq, Structural)]
pub struct DialogLayout {
    pub column: usize,
    pub line: usize,
    pub width: usize,
}

/// The widest of `widths`, zero for none.
pub open spec fn max_width(widths: Seq<usize>) -> nat
    decreases widths.len(),
{
    if widths.len() == 0 {
        0
    } else {
        let rest = max_width(widths.drop_last());
        if widths.last() as nat > rest { widths.last() as nat } else { rest }
    }
}

/// The box around text lines of display widths `widths`: two columns of
/// border and padding on each side, centred horizontally; the text starts
/// below a top border, the box's top centred as for three lines of text.
/// `None` when the box is wider than the terminal or the terminal has fewer
/// than five lines.
pub open spec fn layout_spec(widths: Seq<usize>, dims: Dimensions) -> Option<DialogLayout> {
    let w = max_width(widths) + 4;
    if w > dims.columns || dims.lines < 5 {
        None
    } else {
        Some(
            DialogLayout {
                column: ((dims.columns - w) / 2) as usize,
                line: ((dims.lines - 5) / 2) as usize,
                width: w as usize,
            },
        )
    }
}

/// Place a dialog box for text lines of display widths `widths`.
pub fn layout(widths: &Vec<usize>, dims: Dimensions) -> (r: Option<DialogLayout>)
    ensures
        r == layout_spec(widths@, dims),
{
    let mut widest: usize = 0;
    let mut i: usize = 0;
    while i < widths.len()
        invariant
            i <= widths@.len(),
            widest == max_width(widths@.take(i as int)),
        decreases widths@.len() - i,
    {
        assert(widths@.take(i + 1).drop_last() =~= widths@.take(i as int));
        if widths[i] > widest {
            widest = widths[i];
        }
        i = i + 1;
    }
    assert(widths@.take(i as int) =~= widths@);
    let columns = dims.columns as usize;
    let lines = dims.lines as usize;
    if widest > columns || columns - widest < 4 || lines < 5 {
        return None;
    }
    let w = widest + 4;
    Some(DialogLayout { column: (columns - w) / 2, line: (lines - 5) / 2, width: w })
}

/// The terminal cell (1-based column and line) for a cursor at `cursor`
/// within the text of a dialog placed at `layout`.
pub fn cursor_cell(layout: DialogLayout, cursor: (usize, usize)) -> (r: Option<(usize, usize)>)
    ensures
        layout.column + cursor.0 + 3 <= usize::MAX && layout.line + cursor.1 + 2 <= usize::MAX
            ==> r == Some(((layout.column + cursor.0 + 3) as usize, (layout.line + cursor.1 + 2) as usize)),
        !(layout.column + cursor.0 + 3 <= usize::MAX && layout.line + cursor.1 + 2 <= usize::MAX)
            ==> r is None,
{
    if layout.column > usize::MAX - 3 || cursor.0 > usize::MAX - 3 - layout.column
        || layout.line > usize::MAX - 2 || cursor.1 > usize::MAX - 2 - layout.line {
        return None;
    }
    Some((layout.column + cursor.0 + 3, layout.line + cursor.1 + 2))
}

} // verus!
