//! Dialog for picking a new brush glyph.
use vstd::prelude::*;

use crate::dialog::{first_line_width, first_width, DialogLine, DialogUpdate};
use crate::text::{is_renderable, push_char, push_str, renderable};

verus! {

/// Message prompt of the brush character picker dialog.
pub const BRUSH_CHARACTER_DIALOG_PROMPT: &'static str = "Pick a brush character: ";

/// Dialog for picking a new brush glyph.
#[derive(Copy, Clone, Debug, PartialEq, Eq, Structural)]
pub struct BrushCharacterDialog {
    glyph: char,
}

impl BrushCharacterDialog {
    /// The selected brush glyph.
    pub closed spec fn glyph_spec(&self) -> char {
        self.glyph
    }

    /// Create a new brush character dialog.
    ///
    /// The brush character `glyph` is shown at the end of the prompt, so the
    /// user sees which glyph the brush uses now.
    pub fn new(glyph: char) -> (d: BrushCharacterDialog)
        ensures
            d.glyph_spec() == glyph,
    {
        BrushCharacterDialog { glyph }
    }

    /// Process a keystroke: a glyph that can be drawn becomes the selection.
    pub fn keyboard_input(&mut self, glyph: char) -> (u: DialogUpdate)
        ensures
            renderable(glyph) ==> final(self).glyph_spec() == glyph && u == DialogUpdate::Render,
            !renderable(glyph) ==> *final(self) == *old(self) && u == DialogUpdate::Unchanged,
    {
        if !is_renderable(glyph) {
            return DialogUpdate::Unchanged;
        }
        self.glyph = glyph;
        DialogUpdate::Render
    }

    /// The selected brush glyph.
    pub fn glyph(&self) -> (c: char)
        ensures
            c == self.glyph_spec(),
    {
        self.glyph
    }

    /// The dialog's text: the prompt followed by the selected glyph.
    pub fn lines(&self) -> (r: Vec<String>)
        ensures
            r@.len() == 1,
            r@[0]@ == BRUSH_CHARACTER_DIALOG_PROMPT@.push(self.glyph_spec()),
    {
        let mut line = String::new();
        push_str(&mut line, BRUSH_CHARACTER_DIALOG_PROMPT);
        push_char(&mut line, self.glyph);
        let mut r = Vec::new();
        r.push(line);
        r
    }

    /// Cursor position within the dialog: on the selected glyph, at the end
    /// of the first line.
    pub fn cursor_position(&self, lines: &Vec<DialogLine>) -> (p: (usize, usize))
        ensures
            first_width(lines@) > 0 ==> p == ((first_width(lines@) - 1) as usize, 0usize),
            first_width(lines@) == 0 ==> p == (0usize, 0usize),
    {
        let w = first_line_width(lines);
        if w > 0 { (w - 1, 0) } else { (0, 0) }
    }
}

} // verus!
