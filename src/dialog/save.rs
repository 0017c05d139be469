//! Dialog for saving the sketch.
use vstd::prelude::*;

use crate::dialog::open::{edit_path, edited_path, path_box_color, path_dialog_box_color, path_update};
use crate::dialog::{second_line_width, second_width, DialogLine, DialogUpdate};
use crate::terminal::Color;
use crate::text::string_of;

verus! {

/// Prompt of the save dialog opened on shutdown, when no output was given.
pub const SAVE_DIALOG_SHUTDOWN_PROMPT: &'static str = "Output path (leave empty for stdout):";

/// Prompt of the save dialog.
pub const SAVE_DIALOG_PROMPT: &'static str = "Output path:";

/// Dialog for saving the sketch.
pub struct SaveDialog {
    path: String,
    error: bool,
    shutdown: bool,
}

/// The prompt of a save dialog.
pub open spec fn save_prompt(shutdown: bool) -> Seq<char> {
    if shutdown { SAVE_DIALOG_SHUTDOWN_PROMPT@ } else { SAVE_DIALOG_PROMPT@ }
}

impl SaveDialog {
    /// The path typed so far.
    pub closed spec fn path_spec(&self) -> Seq<char> {
        self.path@
    }

    /// Whether the last attempt to save failed.
    pub closed spec fn error_spec(&self) -> bool {
        self.error
    }

    /// Whether the application ends once the sketch is saved.
    pub closed spec fn shutdown_spec(&self) -> bool {
        self.shutdown
    }

    /// Create a new save dialog with a path filled in.
    pub fn new(path: String, error: bool, shutdown: bool) -> (d: SaveDialog)
        ensures
            d.path_spec() == path@,
            d.error_spec() == error,
            d.shutdown_spec() == shutdown,
    {
        SaveDialog { path, error, shutdown }
    }

    /// Process a keystroke. A keystroke that changes the path clears the
    /// error mark.
    pub fn keyboard_input(&mut self, glyph: char) -> (u: DialogUpdate)
        ensures
            final(self).path_spec() == edited_path(old(self).path_spec(), glyph),
            u == path_update(old(self).path_spec(), glyph, save_prompt(old(self).shutdown_spec()).len()),
            final(self).error_spec() == (old(self).error_spec() && u == DialogUpdate::Unchanged),
            final(self).shutdown_spec() == old(self).shutdown_spec(),
    {
        let prompt_len = self.prompt().unicode_len();
        let u = edit_path(&mut self.path, glyph, prompt_len);
        if u != DialogUpdate::Unchanged {
            self.error = false;
        }
        u
    }

    /// The path typed so far, as typed.
    pub fn text(&self) -> (r: &String)
        ensures
            r@ == self.path_spec(),
    {
        &self.path
    }

    /// Mark the save as failed.
    pub fn mark_failed(&mut self)
        ensures
            final(self).error_spec(),
            final(self).path_spec() == old(self).path_spec(),
            final(self).shutdown_spec() == old(self).shutdown_spec(),
    {
        self.error = true;
    }

    /// Whether the application ends once the sketch is saved.
    pub fn shutdown_on_save(&self) -> (r: bool)
        ensures
            r == self.shutdown_spec(),
    {
        self.shutdown
    }

    /// Dialog prompt.
    pub fn prompt(&self) -> (p: &'static str)
        ensures
            p@ == save_prompt(self.shutdown_spec()),
    {
        if self.shutdown {
            SAVE_DIALOG_SHUTDOWN_PROMPT
        } else {
            SAVE_DIALOG_PROMPT
        }
    }

    /// The dialog's text: the prompt, then the path.
    pub fn lines(&self) -> (r: Vec<String>)
        ensures
            r@.len() == 2,
            r@[0]@ == save_prompt(self.shutdown_spec()),
            r@[1]@ == self.path_spec(),
    {
        let mut r = Vec::new();
        r.push(string_of(self.prompt()));
        r.push(string_of(self.path.as_str()));
        r
    }

    /// Cursor position within the dialog: after the path, on the second line.
    pub fn cursor_position(&self, lines: &Vec<DialogLine>) -> (p: (usize, usize))
        ensures
            p == (second_width(lines@), 1usize),
    {
        (second_line_width(lines), 1)
    }

    /// Foreground and background of the box drawing characters.
    pub fn box_color(&self) -> (r: (Color, Color))
        ensures
            r == path_box_color(self.error_spec()),
    {
        path_dialog_box_color(self.error)
    }
}

} // verus!
