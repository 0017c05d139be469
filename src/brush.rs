//! The drawing brush and its hexagonal shape.
use vstd::prelude::*;

use crate::dialog::colorpicker::ColorPosition;
use crate::terminal::{Color, NamedColor};

verus! {

/// Coordinate in the terminal grid, 1-based.
#[derive(Copy, Clone, Debug, PartialEq, Eq, Structural)]
pub struct Point {
    pub column: usize,
    pub line: usize,
}

impl Default for Point {
    /// The top left cell.
    fn default() -> (p: Point)
        ensures
            p.column == 1 && p.line == 1,
    {
        Point { column: 1, line: 1 }
    }
}

/// Columns of the template of a brush of size `size`.
pub open spec fn template_width(size: nat) -> nat {
    if size == 1 { 1 } else { (size + (size / 2 - 1) * 2) as nat }
}

/// Lines of the template of a brush of size `size`.
pub open spec fn template_height(size: nat) -> nat {
    if size == 1 { 1 } else { (size - 1) as nat }
}

/// How far line `i` of the template lies from the nearer of its top and
/// bottom lines.
pub open spec fn edge_distance(size: nat, i: nat) -> nat {
    let last = template_height(size) - 1;
    if i <= last - i { i } else { (last - i) as nat }
}

/// Occupied cells in line `i` of the template: the brush size on the top and
/// bottom lines, two more for each line towards the middle.
pub open spec fn row_occupied(size: nat, i: nat) -> nat {
    size + 2 * edge_distance(size, i)
}

/// The first occupied column of line `i`: the occupied cells are centred.
pub open spec fn row_start(size: nat, i: nat) -> nat {
    ((template_width(size) - row_occupied(size, i)) / 2) as nat
}

/// Whether the template of a brush of size `size` holds a glyph at line `i`,
/// column `c`: a hexagon, widest in its middle lines.
pub open spec fn template_cell(size: nat, i: nat, c: nat) -> bool {
    size == 1 || (row_start(size, i) <= c < row_start(size, i) + row_occupied(size, i))
}

/// Drawing brush.
pub struct Brush {
    pub template: Vec<Vec<bool>>,
    pub foreground: Color,
    pub background: Color,
    pub position: Point,
    pub glyph: char,
    pub size: u8,
}

impl Default for Brush {
    /// A single `+` in the default colors at the top left cell.
    fn default() -> (b: Brush)
        ensures
            b.glyph == '+',
            b.size == 1,
            b.template@.len() == 1 && b.template@[0]@ == seq![true],
            b.foreground == Color::Named(NamedColor::Default),
            b.background == Color::Named(NamedColor::Default),
            b.position == (Point { column: 1, line: 1 }),
    {
        let template = Brush::create_template(1);
        assert(template@[0]@ =~= seq![true]);
        Brush {
            template,
            glyph: '+',
            size: 1,
            foreground: Color::default(),
            background: Color::default(),
            position: Point::default(),
        }
    }
}

impl Brush {
    /// Update one of the brush's colors.
    pub fn set_color(&mut self, position: ColorPosition, color: Color)
        ensures
            position == ColorPosition::Foreground ==> final(self).foreground == color
                && final(self).background == old(self).background,
            position == ColorPosition::Background ==> final(self).background == color
                && final(self).foreground == old(self).foreground,
            final(self).template == old(self).template,
            final(self).position == old(self).position,
            final(self).glyph == old(self).glyph,
            final(self).size == old(self).size,
    {
        match position {
            ColorPosition::Foreground => self.foreground = color,
            ColorPosition::Background => self.background = color,
        }
    }

    /// Create a brush template: a matrix that holds `true` for every cell with
    /// a brush glyph and `false` for the empty cells. The shape is a hexagon;
    /// size 6 looks like this (`+`: `true`, `-`: `false`):
    ///
    /// ```text
    /// --++++++--
    /// -++++++++-
    /// ++++++++++
    /// -++++++++-
    /// --++++++--
    /// ```
    pub fn create_template(size: u8) -> (t: Vec<Vec<bool>>)
        requires
            size >= 1,
        ensures
            t@.len() == template_height(size as nat),
            forall|i: int|
                0 <= i < t@.len() ==> #[trigger] t@[i]@.len() == template_width(size as nat),
            forall|i: int, c: int|
                0 <= i < t@.len() && 0 <= c < t@[i]@.len() ==> #[trigger] t@[i]@[c]
                    == template_cell(size as nat, i as nat, c as nat),
    {
        let mut cursor: Vec<Vec<bool>> = Vec::new();
        if size == 1 {
            let mut row: Vec<bool> = Vec::new();
            row.push(true);
            cursor.push(row);
            return cursor;
        }
        let n = size as usize;
        let width: usize = n + (n / 2 - 1) * 2;
        let height: usize = n - 1;
        let mut i: usize = 0;
        while i < height
            invariant
                2 <= n <= 255,
                width == template_width(n as nat),
                height == template_height(n as nat),
                i <= height,
                cursor@.len() == i,
                forall|j: int| 0 <= j < i ==> #[trigger] cursor@[j]@.len() == width,
                forall|j: int, c: int|
                    0 <= j < i && 0 <= c < width ==> #[trigger] cursor@[j]@[c] == template_cell(
                        n as nat,
                        j as nat,
                        c as nat,
                    ),
            decreases height - i,
        {
            let last = height - 1;
            let k: usize = if i <= last - i { i } else { last - i };
            let occupied: usize = n + 2 * k;
            assert(occupied <= width);
            let start: usize = (width - occupied) / 2;
            assert(occupied == row_occupied(n as nat, i as nat));
            assert(start == row_start(n as nat, i as nat));
            let mut row: Vec<bool> = Vec::new();
            let mut c: usize = 0;
            while c < width
                invariant
                    2 <= n,
                    c <= width,
                    start + occupied <= width,
                    occupied == row_occupied(n as nat, i as nat),
                    start == row_start(n as nat, i as nat),
                    row@.len() == c,
                    forall|x: int| 0 <= x < c ==> #[trigger] row@[x] == template_cell(
                        n as nat,
                        i as nat,
                        x as nat,
                    ),
                decreases width - c,
            {
                row.push(start <= c && c < start + occupied);
                c = c + 1;
            }
            cursor.push(row);
            i = i + 1;
        }
        cursor
    }
}

} // verus!
