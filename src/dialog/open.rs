//! Dialog for loading sketches.
use vstd::prelude::*;

use crate::dialog::{second_line_width, second_width, DialogLine, DialogUpdate};
use crate::terminal::{Color, NamedColor};
use crate::text::{is_renderable, pop_char, push_char, renderable, str_width, str_width_of, string_of};

verus! {

/// Message prompt of the open dialog.
pub const OPEN_DIALOG_PROMPT: &'static str = "Sketch path:";

/// Dialog for loading sketches.
pub struct OpenDialog {
    path: String,
    error: bool,
}

/// How a path being typed takes a keystroke: DEL removes the last character,
/// a character that can be drawn is appended, anything else is ignored.
pub open spec fn edited_path(path: Seq<char>, glyph: char) -> Seq<char> {
    if glyph == '\x7f' {
        if path.len() > 0 { path.drop_last() } else { path }
    } else if renderable(glyph) {
        path.push(glyph)
    } else {
        path
    }
}

/// What a keystroke asks of the screen in a path dialog with prompt length
/// `prompt_len`: a DEL that leaves the path narrower than the prompt shrinks
/// the dialog, which asks for a full redraw.
pub open spec fn path_update(path: Seq<char>, glyph: char, prompt_len: nat) -> DialogUpdate {
    if glyph == '\x7f' {
        if str_width_of(edited_path(path, glyph)) + 1 > prompt_len {
            DialogUpdate::Redraw
        } else {
            DialogUpdate::Render
        }
    } else if renderable(glyph) {
        DialogUpdate::Render
    } else {
        DialogUpdate::Unchanged
    }
}

/// Apply a keystroke to a path being typed.
pub(crate) fn edit_path(path: &mut String, glyph: char, prompt_len: usize) -> (u: DialogUpdate)
    ensures
        final(path)@ == edited_path(old(path)@, glyph),
        u == path_update(old(path)@, glyph, prompt_len as nat),
{
    if glyph == '\x7f' {
        let _ = pop_char(path);
        if str_width(path.as_str()) >= prompt_len {
            DialogUpdate::Redraw
        } else {
            DialogUpdate::Render
        }
    } else if is_renderable(glyph) {
        push_char(path, glyph);
        DialogUpdate::Render
    } else {
        DialogUpdate::Unchanged
    }
}

/// The box color of a path dialog: red after a failure.
pub open spec fn path_box_color(error: bool) -> (Color, Color) {
    (
        if error { Color::Named(NamedColor::Red) } else { Color::Named(NamedColor::Default) },
        Color::Named(NamedColor::Default),
    )
}

pub(crate) fn path_dialog_box_color(error: bool) -> (r: (Color, Color))
    ensures
        r == path_box_color(error),
{
    let fg = if error { Color::Named(NamedColor::Red) } else { Color::default() };
    (fg, Color::default())
}

impl OpenDialog {
    /// The path typed so far.
    pub closed spec fn path_spec(&self) -> Seq<char> {
        self.path@
    }

    /// Whether the last attempt to open the path failed.
    pub closed spec fn error_spec(&self) -> bool {
        self.error
    }

    /// Create a new open dialog, with an empty path.
    pub fn new() -> (d: OpenDialog)
        ensures
            d.path_spec().len() == 0,
            !d.error_spec(),
    {
        OpenDialog { path: String::new(), error: false }
    }

    /// Process a keystroke. A keystroke that changes the path clears the
    /// error mark.
    pub fn keyboard_input(&mut self, glyph: char) -> (u: DialogUpdate)
        ensures
            final(self).path_spec() == edited_path(old(self).path_spec(), glyph),
            u == path_update(old(self).path_spec(), glyph, OPEN_DIALOG_PROMPT@.len()),
            final(self).error_spec() == (old(self).error_spec() && u == DialogUpdate::Unchanged),
    {
        let u = edit_path(&mut self.path, glyph, OPEN_DIALOG_PROMPT.unicode_len());
        if u != DialogUpdate::Unchanged {
            self.error = false;
        }
        u
    }

    /// The path typed so far, as typed.
    pub fn text(&self) -> (r: &String)
        ensures
            r@ == self.path_spec(),
    {
        &self.path
    }

    /// Mark the path as failed.
    pub fn mark_failed(&mut self)
        ensures
            final(self).error_spec(),
            final(self).path_spec() == old(self).path_spec(),
    {
        self.error = true;
    }

    /// The dialog's text: the prompt, then the path.
    pub fn lines(&self) -> (r: Vec<String>)
        ensures
            r@.len() == 2,
            r@[0]@ == OPEN_DIALOG_PROMPT@,
            r@[1]@ == self.path_spec(),
    {
        let mut r = Vec::new();
        r.push(string_of(OPEN_DIALOG_PROMPT));
        r.push(string_of(self.path.as_str()));
        r
    }

    /// Cursor position within the dialog: after the path, on the second line.
    pub fn cursor_position(&self, lines: &Vec<DialogLine>) -> (p: (usize, usize))
        ensures
            p == (second_width(lines@), 1usize),
    {
        (second_line_width(lines), 1)
    }

    /// Foreground and background of the box drawing characters.
    pub fn box_color(&self) -> (r: (Color, Color))
        ensures
            r == path_box_color(self.error_spec()),
    {
        path_dialog_box_color(self.error)
    }
}

} // verus!
