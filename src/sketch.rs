//! Decisions of the drawing application: what a mouse event or a keystroke
//! does in each application mode, and which strokes draw a box or a line.
use vstd::prelude::*;

use crate::brush::Point;
use crate::dialog::colorpicker::ColorPosition;
use crate::terminal::event::{ButtonState, MouseButton, MouseEvent};
use crate::text::{char_width, char_width_of, is_renderable, renderable};

verus! {

/// Which dialog is open.
#[derive(Copy, Clone, Debug, PartialEq, Eq, Structural)]
pub enum DialogKind {
    BrushCharacter,
    Colorpicker,
    Save,
    Help,
}

/// The application mode, without the dialogs' own state.
#[derive(Copy, Clone, Debug, PartialEq, Eq, Structural)]
pub enum DrawState {
    /// Default drawing mode.
    Sketching,
    /// Box or line drawing from `start`; `moved` once the cursor was dragged,
    /// which rules out a box.
    LineDrawing { start: Point, moved: bool },
    /// A dialog is open.
    Dialog(DialogKind),
}

/// What a mouse event draws.
#[derive(Copy, Clone, Debug, PartialEq, Eq, Structural)]
pub enum MouseAction {
    Nothing,
    /// Preview the box between the two corners.
    PreviewBox(Point, Point),
    /// Draw the box between the two corners.
    WriteBox(Point, Point),
    /// Preview the line between the two ends.
    PreviewLine(Point, Point),
    /// Draw the line between the two ends.
    WriteLine(Point, Point),
    /// Draw the brush at the cursor.
    WriteBrush,
    /// Erase the cells under the brush.
    EraseBrush,
    /// Make the brush one size larger.
    GrowBrush,
    /// Make the brush one size smaller, down to size 1.
    ShrinkBrush,
}

/// How the brush is previewed after a mouse event.
#[derive(Copy, Clone, Debug, PartialEq, Eq, Structural)]
pub enum BrushPreview {
    /// No preview: a dialog is open or line drawing is in progress.
    Hidden,
    /// Preview the brush as it is.
    Full,
    /// Preview a single cell, showing where a line or box would start.
    SingleCell,
}

/// The reaction to a mouse event: the next mode, what to draw, and how to
/// preview the brush afterwards.
#[derive(Copy, Clone, Debug, PartialEq, Eq, Structural)]
pub struct MouseReaction {
    pub state: DrawState,
    pub action: MouseAction,
    pub preview: BrushPreview,
}

/// The cell a mouse event points at.
pub open spec fn event_point(e: MouseEvent) -> Point {
    Point { column: e.column, line: e.line }
}

/// Whether a button is held: just pressed, or dragged.
pub open spec fn held(s: ButtonState) -> bool {
    s == ButtonState::Pressed || s == ButtonState::Down
}

/// The next mode and the drawing for a mouse event.
pub open spec fn mouse_step(state: DrawState, e: MouseEvent) -> (DrawState, MouseAction) {
    let p = event_point(e);
    match state {
        DrawState::Dialog(_) => (state, MouseAction::Nothing),
        DrawState::Sketching => {
            if e.button == MouseButton::Left && e.button_state == ButtonState::Pressed
                && e.modifiers.control && !e.modifiers.shift && !e.modifiers.alt {
                (DrawState::LineDrawing { start: p, moved: false }, MouseAction::Nothing)
            } else if e.button == MouseButton::Left && held(e.button_state) {
                (state, MouseAction::WriteBrush)
            } else if e.button == MouseButton::Right && held(e.button_state) {
                (state, MouseAction::EraseBrush)
            } else if e.button == MouseButton::Index(4) {
                (state, MouseAction::GrowBrush)
            } else if e.button == MouseButton::Index(5) {
                (state, MouseAction::ShrinkBrush)
            } else {
                (state, MouseAction::Nothing)
            }
        },
        DrawState::LineDrawing { start, moved } => {
            if !moved && e.button_state == ButtonState::Up {
                (state, MouseAction::PreviewBox(start, p))
            } else if !moved && e.button == MouseButton::Left && e.button_state
                == ButtonState::Pressed {
                (DrawState::Sketching, MouseAction::WriteBox(start, p))
            } else if e.button == MouseButton::Left && e.button_state == ButtonState::Down {
                (DrawState::LineDrawing { start, moved: true }, MouseAction::PreviewLine(start, p))
            } else if moved && e.button == MouseButton::Left && e.button_state
                == ButtonState::Released {
                (DrawState::Sketching, MouseAction::WriteLine(start, p))
            } else {
                (state, MouseAction::Nothing)
            }
        },
    }
}

/// The brush preview after a mouse event that left the application in
/// `next`: only while sketching, a single cell while Control is held (except
/// for the right button, which erases).
pub open spec fn preview_after(next: DrawState, e: MouseEvent) -> BrushPreview {
    if next != DrawState::Sketching {
        BrushPreview::Hidden
    } else if e.modifiers.control && e.button != MouseButton::Right {
        BrushPreview::SingleCell
    } else {
        BrushPreview::Full
    }
}

/// React to a mouse event: Control and a left click start line drawing; in
/// line drawing, motion previews a box, a second click draws it, dragging
/// previews a line and releasing after a drag draws it; while sketching the
/// left button draws the brush, the right one erases, and the wheel (buttons
/// 4 and 5) changes the brush size. Dialogs take no mouse input.
pub fn mouse_input(state: DrawState, event: MouseEvent) -> (r: MouseReaction)
    ensures
        (r.state, r.action) == mouse_step(state, event),
        state is Dialog ==> r.preview == BrushPreview::Hidden,
        !(state is Dialog) ==> r.preview == preview_after(r.state, event),
{
    let p = Point { column: event.column, line: event.line };
    let left = event.button == MouseButton::Left;
    let held = event.button_state == ButtonState::Pressed || event.button_state == ButtonState::Down;
    let (next, action) = match state {
        DrawState::Dialog(_) => {
            return MouseReaction { state, action: MouseAction::Nothing, preview: BrushPreview::Hidden };
        },
        DrawState::Sketching => {
            if left && event.button_state == ButtonState::Pressed && event.modifiers.is_control_only() {
                (DrawState::LineDrawing { start: p, moved: false }, MouseAction::Nothing)
            } else if left && held {
                (state, MouseAction::WriteBrush)
            } else if event.button == MouseButton::Right && held {
                (state, MouseAction::EraseBrush)
            } else if event.button == MouseButton::Index(4) {
                (state, MouseAction::GrowBrush)
            } else if event.button == MouseButton::Index(5) {
                (state, MouseAction::ShrinkBrush)
            } else {
                (state, MouseAction::Nothing)
            }
        },
        DrawState::LineDrawing { start, moved } => {
            if !moved && event.button_state == ButtonState::Up {
                (state, MouseAction::PreviewBox(start, p))
            } else if !moved && left && event.button_state == ButtonState::Pressed {
                (DrawState::Sketching, MouseAction::WriteBox(start, p))
            } else if left && event.button_state == ButtonState::Down {
                (DrawState::LineDrawing { start, moved: true }, MouseAction::PreviewLine(start, p))
            } else if moved && left && event.button_state == ButtonState::Released {
                (DrawState::Sketching, MouseAction::WriteLine(start, p))
            } else {
                (state, MouseAction::Nothing)
            }
        },
    };
    let preview = if next != DrawState::Sketching {
        BrushPreview::Hidden
    } else if event.modifiers.control && event.button != MouseButton::Right {
        BrushPreview::SingleCell
    } else {
        BrushPreview::Full
    };
    MouseReaction { state: next, action, preview }
}

/// What a keystroke does.
#[derive(Copy, Clone, Debug, PartialEq, Eq, Structural)]
pub enum KeyAction {
    Nothing,
    /// Ask the application to shut down, as a termination signal does.
    Quit,
    /// Close the open dialog and go back to sketching.
    CloseDialog,
    /// Hand the keystroke to the open dialog.
    DialogInput,
    /// Take the brush character dialog's glyph for the brush, then close it.
    ApplyGlyph,
    /// Reset the picked color to the default, then close the colorpicker.
    ResetColor,
    /// Take the colorpicker's color for the brush, then close it.
    ApplyColor,
    /// Save to the path typed in the save dialog.
    Save,
    /// Leave line drawing without drawing.
    CancelLine,
    /// Open the colorpicker for one of the brush's colors.
    OpenColorpicker(ColorPosition),
    /// Switch to the next text style.
    ToggleTextStyle,
    /// Open the brush character dialog.
    OpenBrushCharacter,
    /// Open the help dialog.
    OpenHelp,
    /// Delete the character before the text cursor.
    Backspace,
    /// Clear the canvas.
    Clear,
    /// Go back one revision.
    Undo,
    /// Go forward one revision.
    Redo,
    /// Move the text cursor to the next line.
    NewLine,
    /// Write the character at the text cursor.
    Type(char),
}

/// What a keystroke does outside dialogs.
pub open spec fn sketch_key(glyph: char) -> KeyAction {
    if glyph == '\x02' {
        KeyAction::OpenColorpicker(ColorPosition::Background)
    } else if glyph == '\x06' {
        KeyAction::OpenColorpicker(ColorPosition::Foreground)
    } else if glyph == '\x13' {
        KeyAction::ToggleTextStyle
    } else if glyph == '\x14' {
        KeyAction::OpenBrushCharacter
    } else if glyph == '\x1f' {
        KeyAction::OpenHelp
    } else if glyph == '\x7f' {
        KeyAction::Backspace
    } else if glyph == '\x0c' {
        KeyAction::Clear
    } else if glyph == '\x15' {
        KeyAction::Undo
    } else if glyph == '\x12' {
        KeyAction::Redo
    } else if glyph == '\n' {
        KeyAction::NewLine
    } else if renderable(glyph) {
        KeyAction::Type(glyph)
    } else {
        KeyAction::Nothing
    }
}

/// What a keystroke does in each mode: `Ctrl+D` quits in every mode; ESC closes any dialog and cancels line
/// drawing; Enter confirms a dialog; in the colorpicker `^E` resets the color;
/// other keys go to the open dialog; outside dialogs, see `sketch_key`.
pub open spec fn key_step(state: DrawState, glyph: char) -> KeyAction {
    if glyph == '\x04' {
        KeyAction::Quit
    } else {
        key_in_mode(state, glyph)
    }
}

/// What a keystroke other than `Ctrl+D` does in each mode.
pub open spec fn key_in_mode(state: DrawState, glyph: char) -> KeyAction {
    match state {
        DrawState::Dialog(kind) => {
            if glyph == '\x1b' {
                KeyAction::CloseDialog
            } else {
                match kind {
                    DialogKind::BrushCharacter => if glyph == '\n' {
                        KeyAction::ApplyGlyph
                    } else {
                        KeyAction::DialogInput
                    },
                    DialogKind::Colorpicker => if glyph == '\x05' {
                        KeyAction::ResetColor
                    } else if glyph == '\n' {
                        KeyAction::ApplyColor
                    } else {
                        KeyAction::DialogInput
                    },
                    DialogKind::Save => if glyph == '\n' {
                        KeyAction::Save
                    } else {
                        KeyAction::DialogInput
                    },
                    DialogKind::Help => if glyph == '\n' {
                        KeyAction::CloseDialog
                    } else {
                        sketch_key(glyph)
                    },
                }
            }
        },
        DrawState::LineDrawing { .. } => if glyph == '\x1b' {
            KeyAction::CancelLine
        } else {
            sketch_key(glyph)
        },
        DrawState::Sketching => sketch_key(glyph),
    }
}

fn sketch_key_action(glyph: char) -> (a: KeyAction)
    ensures
        a == sketch_key(glyph),
{
    match glyph {
        '\x02' => KeyAction::OpenColorpicker(ColorPosition::Background),
        '\x06' => KeyAction::OpenColorpicker(ColorPosition::Foreground),
        '\x13' => KeyAction::ToggleTextStyle,
        '\x14' => KeyAction::OpenBrushCharacter,
        '\x1f' => KeyAction::OpenHelp,
        '\x7f' => KeyAction::Backspace,
        '\x0c' => KeyAction::Clear,
        '\x15' => KeyAction::Undo,
        '\x12' => KeyAction::Redo,
        '\n' => KeyAction::NewLine,
        _ => if is_renderable(glyph) {
            KeyAction::Type(glyph)
        } else {
            KeyAction::Nothing
        },
    }
}

/// What a keystroke does in the current mode.
pub fn keyboard_input(state: DrawState, glyph: char) -> (a: KeyAction)
    ensures
        a == key_step(state, glyph),
{
    if glyph == '\x04' {
        return KeyAction::Quit;
    }
    match state {
        DrawState::Dialog(kind) => {
            if glyph == '\x1b' {
                return KeyAction::CloseDialog;
            }
            match kind {
                DialogKind::BrushCharacter => if glyph == '\n' {
                    KeyAction::ApplyGlyph
                } else {
                    KeyAction::DialogInput
                },
                DialogKind::Colorpicker => if glyph == '\x05' {
                    KeyAction::ResetColor
                } else if glyph == '\n' {
                    KeyAction::ApplyColor
                } else {
                    KeyAction::DialogInput
                },
                DialogKind::Save => if glyph == '\n' {
                    KeyAction::Save
                } else {
                    KeyAction::DialogInput
                },
                DialogKind::Help => if glyph == '\n' {
                    KeyAction::CloseDialog
                } else {
                    sketch_key_action(glyph)
                },
            }
        },
        DrawState::LineDrawing { .. } => if glyph == '\x1b' {
            KeyAction::CancelLine
        } else {
            sketch_key_action(glyph)
        },
        DrawState::Sketching => sketch_key_action(glyph),
    }
}

/// One write to the canvas: `count` copies of `c`, side by side, from `at`.
#[derive(Copy, Clone, Debug, PartialEq, Eq, Structural)]
pub struct Stroke {
    pub at: Point,
    pub c: char,
    pub count: usize,
}

/// The stroke of `count` copies of `c` from `column` on `line`.
pub open spec fn stroke(column: nat, line: nat, c: char, count: nat) -> Stroke {
    Stroke { at: Point { column: column as usize, line: line as usize }, c, count: count as usize }
}

/// The vertical sides of a box on the lines from `line` up to `last`
/// (excluded): the left one at `left`, the right one at `right` unless both
/// are the same column.
pub open spec fn side_strokes(left: nat, right: nat, line: nat, last: nat) -> Seq<Stroke>
    decreases last - line,
{
    if line >= last {
        Seq::empty()
    } else {
        let here = if left == right {
            seq![stroke(left, line, '│', 1)]
        } else {
            seq![stroke(left, line, '│', 1), stroke(right, line, '│', 1)]
        };
        here + side_strokes(left, right, line + 1, last)
    }
}

/// The strokes of a box with corners `a` and `b`, in any order, drawn with
/// box-drawing characters, which are one column wide: a single cell is a
/// cross, a single column or line gets end pieces, a larger box gets corners.
pub open spec fn box_strokes_spec(a: Point, b: Point) -> Seq<Stroke> {
    let l: nat = if a.column <= b.column { a.column as nat } else { b.column as nat };
    let r: nat = if a.column <= b.column { b.column as nat } else { a.column as nat };
    let t: nat = if a.line <= b.line { a.line as nat } else { b.line as nat };
    let bt: nat = if a.line <= b.line { b.line as nat } else { a.line as nat };
    let outline = if l == r && t == bt {
        seq![stroke(l, t, '┼', 1)]
    } else if l == r {
        seq![stroke(l, t, '┬', 1), stroke(l, bt, '┴', 1)]
    } else if t == bt {
        if r - l > 1 {
            seq![stroke(l, t, '├', 1), stroke(l + 1, t, '─', (r - l - 1) as nat), stroke(r, t, '┤', 1)]
        } else {
            seq![stroke(l, t, '├', 1), stroke(r, t, '┤', 1)]
        }
    } else {
        seq![
            stroke(l, t, '┌', 1),
            stroke(l + 1, t, '─', (r - l - 1) as nat),
            stroke(r, t, '┐', 1),
            stroke(l, bt, '└', 1),
            stroke(l + 1, bt, '─', (r - l - 1) as nat),
            stroke(r, bt, '┘', 1),
        ]
    };
    outline + side_strokes(l, r, t + 1, bt)
}

fn mk(column: usize, line: usize, c: char, count: usize) -> (s: Stroke)
    ensures
        s == stroke(column as nat, line as nat, c, count as nat),
{
    Stroke { at: Point { column, line }, c, count }
}

/// The strokes that draw a box with corners `a` and `b`.
pub fn box_strokes(a: Point, b: Point) -> (r: Vec<Stroke>)
    requires
        a.column < usize::MAX,
        b.column < usize::MAX,
    ensures
        r@ == box_strokes_spec(a, b),
{
    let (l, rt) = if a.column <= b.column { (a.column, b.column) } else { (b.column, a.column) };
    let (t, bt) = if a.line <= b.line { (a.line, b.line) } else { (b.line, a.line) };
    let mut r: Vec<Stroke> = Vec::new();
    if l == rt && t == bt {
        r.push(mk(l, t, '┼', 1));
    } else if l == rt {
        r.push(mk(l, t, '┬', 1));
        r.push(mk(l, bt, '┴', 1));
    } else if t == bt {
        r.push(mk(l, t, '├', 1));
        if rt - l > 1 {
            r.push(mk(l + 1, t, '─', rt - l - 1));
        }
        r.push(mk(rt, t, '┤', 1));
    } else {
        r.push(mk(l, t, '┌', 1));
        r.push(mk(l + 1, t, '─', rt - l - 1));
        r.push(mk(rt, t, '┐', 1));
        r.push(mk(l, bt, '└', 1));
        r.push(mk(l + 1, bt, '─', rt - l - 1));
        r.push(mk(rt, bt, '┘', 1));
    }
    let ghost outline = r@;
    let ghost l_n = l as nat;
    let ghost r_n = rt as nat;
    let ghost b_n = bt as nat;
    proof {
        if t >= bt {
            assert(side_strokes(l_n, r_n, t as nat + 1, b_n) =~= Seq::<Stroke>::empty());
        }
    }
    assert(r@ + side_strokes(l_n, r_n, t as nat + 1, b_n) =~= box_strokes_spec(a, b));
    if t < bt {
        let mut line: usize = t + 1;
        while line < bt
            invariant
                t < bt,
                t + 1 <= line <= bt,
                l_n == l,
                r_n == rt,
                b_n == bt,
                r@ + side_strokes(l_n, r_n, line as nat, b_n) == box_strokes_spec(a, b),
            decreases bt - line,
        {
            let ghost before = r@;
            r.push(mk(l, line, '│', 1));
            if rt != l {
                r.push(mk(rt, line, '│', 1));
            }
            line = line + 1;
            proof {
                reveal_with_fuel(side_strokes, 2);
                let here = if l_n == r_n {
                    seq![stroke(l_n, (line - 1) as nat, '│', 1)]
                } else {
                    seq![stroke(l_n, (line - 1) as nat, '│', 1), stroke(r_n, (line - 1) as nat, '│', 1)]
                };
                let rest = side_strokes(l_n, r_n, line as nat, b_n);
                assert(side_strokes(l_n, r_n, (line - 1) as nat, b_n) == here + rest);
                assert(r@ =~= before + here);
                assert(r@ + rest =~= before + (here + rest));
            }
        }
        assert(side_strokes(l_n, r_n, line as nat, b_n) =~= Seq::<Stroke>::empty());
        assert(r@ =~= r@ + side_strokes(l_n, r_n, line as nat, b_n));
    }
    r
}

/// The column width of the brush glyph for line drawing: its displayed
/// width, one when it has none.
pub open spec fn glyph_columns(glyph: char) -> nat {
    match char_width_of(glyph) {
        Some(w) => if w > 0 { w as nat } else { 1 },
        None => 1,
    }
}

/// The strokes of a line from `a` to `b` with `glyph`: a horizontal run on
/// `a`'s line when the line is at least twice as wide as tall, else a
/// vertical run in `a`'s column.
pub open spec fn line_strokes_spec(a: Point, b: Point, glyph: char) -> Seq<Stroke> {
    let l: nat = if a.column <= b.column { a.column as nat } else { b.column as nat };
    let r: nat = if a.column <= b.column { b.column as nat } else { a.column as nat };
    let t: nat = if a.line <= b.line { a.line as nat } else { b.line as nat };
    let bt: nat = if a.line <= b.line { b.line as nat } else { a.line as nat };
    if r - l >= (bt - t) * 2 {
        seq![stroke(l, a.line as nat, glyph, ((r - l + 1) as nat / glyph_columns(glyph)) as nat)]
    } else {
        Seq::new((bt - t + 1) as nat, |i: int| stroke(a.column as nat, (t + i) as nat, glyph, 1))
    }
}

/// The strokes that draw a line from `a` to `b` with `glyph`.
pub fn line_strokes(a: Point, b: Point, glyph: char) -> (r: Vec<Stroke>)
    requires
        a.column < usize::MAX,
        b.column < usize::MAX,
        a.line < usize::MAX,
        b.line < usize::MAX,
    ensures
        r@ == line_strokes_spec(a, b, glyph),
{
    let (l, rt) = if a.column <= b.column { (a.column, b.column) } else { (b.column, a.column) };
    let (t, bt) = if a.line <= b.line { (a.line, b.line) } else { (b.line, a.line) };
    let width: usize = match char_width(glyph) {
        Some(w) => if w > 0 { w } else { 1 },
        None => 1,
    };
    let mut r: Vec<Stroke> = Vec::new();
    if (rt - l) / 2 >= bt - t {
        r.push(mk(l, a.line, glyph, (rt - l + 1) / width));
        assert(r@ =~= line_strokes_spec(a, b, glyph));
    } else {
        let mut line: usize = t;
        while line <= bt
            invariant
                t <= line <= bt + 1,
                bt < usize::MAX,
                r@ =~= Seq::new((line - t) as nat, |i: int| stroke(a.column as nat, (t + i) as nat, glyph, 1)),
            decreases bt + 1 - line,
        {
            r.push(mk(a.column, line, glyph, 1));
            line = line + 1;
        }
        assert(r@ =~= line_strokes_spec(a, b, glyph));
    }
    r
}

/// The undo position of the canvas: the current revision, the highest one
/// that redo can reach, and whether a bracketed paste is running.
pub struct Revisions {
    revision: usize,
    max_revision: usize,
    pasting: bool,
}

impl Revisions {
    /// The current revision.
    pub closed spec fn current(&self) -> usize {
        self.revision
    }

    /// The highest revision that redo can reach.
    pub closed spec fn max(&self) -> usize {
        self.max_revision
    }

    /// Whether a bracketed paste is running.
    pub closed spec fn is_pasting(&self) -> bool {
        self.pasting
    }

    /// No change made yet.
    pub fn new() -> (r: Revisions)
        ensures
            r.current() == 0,
            r.max() == 0,
            !r.is_pasting(),
    {
        Revisions { revision: 0, max_revision: 0, pasting: false }
    }

    /// The current revision.
    pub fn revision(&self) -> (r: usize)
        ensures
            r == self.current(),
    {
        self.revision
    }

    /// Close the current revision after a change. Changes during a paste all
    /// belong to one revision, closed when the paste ends. Returns the
    /// revision after which the cells' history is cut (redo is lost), or
    /// `None` when nothing was closed.
    pub fn bump(&mut self) -> (cut: Option<usize>)
        ensures
            final(self).is_pasting() == old(self).is_pasting(),
            (old(self).is_pasting() || old(self).current() == usize::MAX) ==> cut is None
                && final(self).current() == old(self).current() && final(self).max() == old(self).max(),
            !(old(self).is_pasting() || old(self).current() == usize::MAX) ==> cut == Some(old(self).current())
                && final(self).current() == old(self).current() + 1
                && final(self).max() == final(self).current(),
    {
        if self.pasting || self.revision == usize::MAX {
            return None;
        }
        let cut = self.revision;
        self.revision = self.revision + 1;
        self.max_revision = self.revision;
        Some(cut)
    }

    /// Move to `revision`, when it exists (is at most the highest one).
    pub fn set_revision(&mut self, revision: usize) -> (moved: bool)
        ensures
            moved == (revision <= old(self).max()),
            moved ==> final(self).current() == revision,
            !moved ==> final(self).current() == old(self).current(),
            final(self).max() == old(self).max(),
            final(self).is_pasting() == old(self).is_pasting(),
    {
        if revision > self.max_revision {
            return false;
        }
        self.revision = revision;
        true
    }

    /// The revision undo goes to: one back, staying at 0.
    pub fn undo_target(&self) -> (r: usize)
        ensures
            r == if self.current() == 0 { 0 } else { (self.current() - 1) as usize },
    {
        if self.revision == 0 { 0 } else { self.revision - 1 }
    }

    /// The revision redo goes to: one forward, when there is one.
    pub fn redo_target(&self) -> (r: Option<usize>)
        ensures
            self.current() < usize::MAX ==> r == Some((self.current() + 1) as usize),
            self.current() == usize::MAX ==> r is None,
    {
        if self.revision < usize::MAX { Some(self.revision + 1) } else { None }
    }

    /// Start (`true`) or end a bracketed paste; the end closes the revision.
    pub fn set_pasting(&mut self, active: bool) -> (cut: Option<usize>)
        ensures
            final(self).is_pasting() == active,
            active ==> cut is None && final(self).current() == old(self).current() && final(self).max() == old(self).max(),
            (!active && old(self).current() < usize::MAX) ==> cut == Some(old(self).current())
                && final(self).current() == old(self).current() + 1
                && final(self).max() == final(self).current(),
            (!active && old(self).current() == usize::MAX) ==> cut is None
                && final(self).current() == old(self).current() && final(self).max() == old(self).max(),
    {
        self.pasting = active;
        if active {
            None
        } else {
            self.bump()
        }
    }
}

/// The index of the first `true` in `row` at or after `k`.
pub open spec fn first_true_from(row: Seq<bool>, k: int) -> Option<int>
    decreases row.len() - k,
{
    if k < 0 || k >= row.len() {
        None
    } else if row[k] {
        Some(k)
    } else {
        first_true_from(row, k + 1)
    }
}

/// The index of the last `true` in `row` before `n`, or 0 when there is none.
pub open spec fn last_true_before(row: Seq<bool>, n: int) -> int
    decreases n,
{
    if n <= 0 || n > row.len() {
        0
    } else if row[n - 1] {
        n - 1
    } else {
        last_true_before(row, n - 1)
    }
}

/// The stroke for line `i` of the brush `template` centred on `position`,
/// on a canvas of `last_line` lines, or `None` when nothing of that line
/// lands on the canvas. Cells left of column 1 are cut off. A fullwidth
/// glyph (`width` 2) takes every second cell; erasing writes spaces.
pub open spec fn brush_row_stroke(
    template: Seq<Seq<bool>>,
    position: Point,
    last_line: nat,
    glyph: char,
    width: nat,
    erase: bool,
    i: int,
) -> Option<Stroke> {
    let w = template[0].len() as int;
    let h = template.len() as int;
    let origin_column = position.column - w / 2;
    let target_line = position.line - h / 2 + i;
    let skip = if origin_column < 1 { 1 - origin_column } else { 0 };
    let row = template[i];
    match first_true_from(row, skip) {
        Some(first) => if target_line > 0 && target_line <= last_line {
            let columns = (last_true_before(row, row.len() as int) + width - first) / (width as int);
            Some(
                stroke(
                    (origin_column + first) as nat,
                    target_line as nat,
                    if erase { ' ' } else { glyph },
                    (if erase { columns * width } else { columns }) as nat,
                ),
            )
        } else {
            None
        },
        None => None,
    }
}

/// The strokes of the brush's first `n` lines, top to bottom.
pub open spec fn brush_strokes_spec(
    template: Seq<Seq<bool>>,
    position: Point,
    last_line: nat,
    glyph: char,
    width: nat,
    erase: bool,
    n: int,
) -> Seq<Stroke>
    decreases n,
{
    if n <= 0 {
        Seq::empty()
    } else {
        let before = brush_strokes_spec(template, position, last_line, glyph, width, erase, n - 1);
        match brush_row_stroke(template, position, last_line, glyph, width, erase, n - 1) {
            Some(s) => before.push(s),
            None => before,
        }
    }
}

fn first_true(row: &Vec<bool>, k: usize) -> (r: Option<usize>)
    ensures
        r matches Some(i) ==> first_true_from(row@, k as int) == Some(i as int),
        r is None ==> first_true_from(row@, k as int) is None,
    decreases row@.len() - k,
{
    if k >= row.len() {
        None
    } else if row[k] {
        Some(k)
    } else {
        first_true(row, k + 1)
    }
}

fn last_true(row: &Vec<bool>, n: usize) -> (r: usize)
    requires
        n <= row@.len(),
    ensures
        r as int == last_true_before(row@, n as int),
        r < row@.len() || r == 0,
    decreases n,
{
    if n == 0 {
        0
    } else if row[n - 1] {
        n - 1
    } else {
        last_true(row, n - 1)
    }
}

proof fn lemma_first_true_bounds(row: Seq<bool>, k: int)
    requires
        0 <= k,
    ensures
        first_true_from(row, k) matches Some(i) ==> k <= i < row.len() && row[i]
            && i <= last_true_before(row, row.len() as int),
    decreases row.len() - k,
{
    if 0 <= k < row.len() && !row[k] {
        lemma_first_true_bounds(row, k + 1);
    }
    if first_true_from(row, k) is Some {
        lemma_last_true_after(row, row.len() as int, first_true_from(row, k)->0);
    }
}

proof fn lemma_last_true_after(row: Seq<bool>, n: int, i: int)
    requires
        0 <= i < n <= row.len(),
        row[i],
    ensures
        i <= last_true_before(row, n),
    decreases n,
{
    if !row[n - 1] {
        lemma_last_true_after(row, n - 1, i);
    }
}

/// The strokes that draw (or, with `erase`, clear) the brush `template`
/// centred on `position`, on a canvas of `last_line` lines.
pub fn brush_strokes(
    template: &Vec<Vec<bool>>,
    position: Point,
    last_line: usize,
    glyph: char,
    erase: bool,
) -> (r: Vec<Stroke>)
    requires
        template@.len() > 0,
        position.column + template@[0]@.len() <= usize::MAX,
        position.line + template@.len() <= usize::MAX,
        forall|i: int| 0 <= i < template@.len() ==> #[trigger] template@[i]@.len() <= template@[0]@.len(),
        template@[0]@.len() * 2 <= usize::MAX,
    ensures
        r@ == brush_strokes_spec(
            template@.map_values(|row: Vec<bool>| row@),
            position,
            last_line as nat,
            glyph,
            glyph_columns(glyph),
            erase,
            template@.len() as int,
        ),
{
    let ghost rows = template@.map_values(|row: Vec<bool>| row@);
    let w = template[0].len();
    let h = template.len();
    let width: usize = match char_width(glyph) {
        Some(c) => if c > 0 { c } else { 1 },
        None => 1,
    };
    let half_w = w / 2;
    let half_h = h / 2;
    let skip: usize = if position.column < half_w + 1 { half_w + 1 - position.column } else { 0 };
    let mut r: Vec<Stroke> = Vec::new();
    let mut i: usize = 0;
    while i < h
        invariant
            i <= h,
            h == template@.len(),
            w == template@[0]@.len(),
            half_w == w / 2,
            half_h == h / 2,
            rows == template@.map_values(|row: Vec<bool>| row@),
            width == glyph_columns(glyph),
            1 <= width <= 3,
            skip as int == (if position.column - half_w < 1 { 1 - (position.column - half_w) } else { 0 }),
            position.column + w <= usize::MAX,
            position.line + h <= usize::MAX,
            forall|k: int| 0 <= k < h ==> #[trigger] template@[k]@.len() <= w,
            w * 2 <= usize::MAX,
            r@ == brush_strokes_spec(rows, position, last_line as nat, glyph, width as nat, erase, i as int),
        decreases h - i,
    {
        let row = &template[i];
        let ghost spec_row = brush_row_stroke(rows, position, last_line as nat, glyph, width as nat, erase, i as int);
        assert(rows[i as int] == row@);
        let line_plus = position.line + i;
        match first_true(row, skip) {
            Some(first) => {
                proof {
                    lemma_first_true_bounds(row@, skip as int);
                }
                if line_plus > half_h && line_plus - half_h <= last_line {
                    let last = last_true(row, row.len());
                    let columns = (last + width - first) / width;
                    let column = position.column + first - half_w;
                    let s = if erase {
                        assert((columns as int) * (width as int) <= (last + width) as int) by (nonlinear_arith)
                            requires
                                columns as int == ((last + width - first) as int) / (width as int),
                                width > 0,
                                first <= last,
                        ;
                        mk(column, line_plus - half_h, ' ', columns * width)
                    } else {
                        mk(column, line_plus - half_h, glyph, columns)
                    };
                    r.push(s);
                }
            },
            None => {},
        }
        i = i + 1;
    }
    r
}

} // verus!
