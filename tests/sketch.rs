use sketch::brush::{Brush, Point};
use sketch::dialog::colorpicker::ColorPosition;
use sketch::dialog::{cursor_cell, layout, DialogLayout};
use sketch::grid::{Cell, CellContent};
use sketch::import::TextStyle;
use sketch::sketch::{
    box_strokes, brush_strokes, keyboard_input, line_strokes, mouse_input, BrushPreview,
    DialogKind, DrawState, KeyAction, MouseAction, Revisions, Stroke,
};
use sketch::terminal::event::{ButtonState, Modifiers, MouseButton, MouseEvent};
use sketch::terminal::{Color, Dimensions, NamedColor};

fn p(column: usize, line: usize) -> Point {
    Point { column, line }
}

fn s(column: usize, line: usize, c: char, count: usize) -> Stroke {
    Stroke { at: p(column, line), c, count }
}

fn event(button: MouseButton, state: ButtonState, control: bool, column: usize, line: usize) -> MouseEvent {
    MouseEvent {
        button_state: state,
        modifiers: Modifiers { shift: false, alt: false, control },
        button,
        column,
        line,
    }
}

fn content(c: char) -> CellContent {
    CellContent {
        c,
        foreground: Color::default(),
        background: Color::default(),
        style: TextStyle::empty(),
    }
}

#[test]
fn box_strokes_full_box() {
    assert_eq!(
        box_strokes(p(5, 4), p(2, 2)),
        vec![
            s(2, 2, '┌', 1),
            s(3, 2, '─', 2),
            s(5, 2, '┐', 1),
            s(2, 4, '└', 1),
            s(3, 4, '─', 2),
            s(5, 4, '┘', 1),
            s(2, 3, '│', 1),
            s(5, 3, '│', 1),
        ]
    );
}

#[test]
fn box_strokes_degenerate_boxes() {
    assert_eq!(box_strokes(p(3, 3), p(3, 3)), vec![s(3, 3, '┼', 1)]);
    assert_eq!(
        box_strokes(p(3, 1), p(3, 3)),
        vec![s(3, 1, '┬', 1), s(3, 3, '┴', 1), s(3, 2, '│', 1)]
    );
    assert_eq!(
        box_strokes(p(1, 2), p(4, 2)),
        vec![s(1, 2, '├', 1), s(2, 2, '─', 2), s(4, 2, '┤', 1)]
    );
    assert_eq!(box_strokes(p(1, 2), p(2, 2)), vec![s(1, 2, '├', 1), s(2, 2, '┤', 1)]);
}

#[test]
fn line_strokes_horizontal_and_vertical() {
    assert_eq!(line_strokes(p(10, 3), p(4, 5), '#'), vec![s(4, 3, '#', 7)]);
    assert_eq!(line_strokes(p(4, 3), p(10, 3), '漢'), vec![s(4, 3, '漢', 3)]);
    assert_eq!(
        line_strokes(p(4, 6), p(5, 3), '*'),
        vec![s(4, 3, '*', 1), s(4, 4, '*', 1), s(4, 5, '*', 1), s(4, 6, '*', 1)]
    );
}

#[test]
fn brush_strokes_clip_at_the_edges() {
    let template = Brush::create_template(3);
    assert_eq!(
        brush_strokes(&template, p(5, 5), 20, '+', false),
        vec![s(4, 4, '+', 3), s(4, 5, '+', 3)]
    );
    // Cells left of column 1 and above line 1 are cut off.
    assert_eq!(brush_strokes(&template, p(1, 1), 20, '+', false), vec![s(1, 1, '+', 2)]);
    // Lines below the canvas are cut off.
    assert_eq!(brush_strokes(&template, p(5, 5), 4, '+', false), vec![s(4, 4, '+', 3)]);
    // Erasing writes spaces.
    assert_eq!(
        brush_strokes(&template, p(5, 5), 20, '+', true),
        vec![s(4, 4, ' ', 3), s(4, 5, ' ', 3)]
    );
    // A fullwidth glyph takes every second cell.
    assert_eq!(
        brush_strokes(&Brush::create_template(4), p(10, 10), 20, '漢', false),
        vec![s(8, 9, '漢', 2), s(7, 10, '漢', 3), s(8, 11, '漢', 2)]
    );
}

#[test]
fn mouse_line_and_box_drawing() {
    let start = mouse_input(DrawState::Sketching, event(MouseButton::Left, ButtonState::Pressed, true, 3, 4));
    assert_eq!(start.state, DrawState::LineDrawing { start: p(3, 4), moved: false });
    assert_eq!(start.action, MouseAction::Nothing);
    assert_eq!(start.preview, BrushPreview::Hidden);

    let hover = mouse_input(start.state, event(MouseButton::NoButton, ButtonState::Up, false, 7, 8));
    assert_eq!(hover.action, MouseAction::PreviewBox(p(3, 4), p(7, 8)));
    let click = mouse_input(hover.state, event(MouseButton::Left, ButtonState::Pressed, false, 7, 8));
    assert_eq!(click.action, MouseAction::WriteBox(p(3, 4), p(7, 8)));
    assert_eq!(click.state, DrawState::Sketching);
    assert_eq!(click.preview, BrushPreview::Full);

    let drag = mouse_input(start.state, event(MouseButton::Left, ButtonState::Down, false, 9, 4));
    assert_eq!(drag.action, MouseAction::PreviewLine(p(3, 4), p(9, 4)));
    assert_eq!(drag.state, DrawState::LineDrawing { start: p(3, 4), moved: true });
    let release = mouse_input(drag.state, event(MouseButton::Left, ButtonState::Released, false, 9, 4));
    assert_eq!(release.action, MouseAction::WriteLine(p(3, 4), p(9, 4)));
    assert_eq!(release.state, DrawState::Sketching);
}

#[test]
fn mouse_sketching_actions() {
    let draw = mouse_input(DrawState::Sketching, event(MouseButton::Left, ButtonState::Down, false, 1, 1));
    assert_eq!(draw.action, MouseAction::WriteBrush);
    let erase = mouse_input(DrawState::Sketching, event(MouseButton::Right, ButtonState::Pressed, true, 1, 1));
    assert_eq!(erase.action, MouseAction::EraseBrush);
    assert_eq!(erase.preview, BrushPreview::Full);
    let grow = mouse_input(DrawState::Sketching, event(MouseButton::Index(4), ButtonState::Pressed, false, 1, 1));
    assert_eq!(grow.action, MouseAction::GrowBrush);
    let shrink = mouse_input(DrawState::Sketching, event(MouseButton::Index(5), ButtonState::Pressed, false, 1, 1));
    assert_eq!(shrink.action, MouseAction::ShrinkBrush);
    let hover = mouse_input(DrawState::Sketching, event(MouseButton::NoButton, ButtonState::Up, true, 1, 1));
    assert_eq!(hover.preview, BrushPreview::SingleCell);
    let dialog = DrawState::Dialog(DialogKind::Help);
    let ignored = mouse_input(dialog, event(MouseButton::Left, ButtonState::Pressed, false, 1, 1));
    assert_eq!(ignored.state, dialog);
    assert_eq!(ignored.action, MouseAction::Nothing);
    assert_eq!(ignored.preview, BrushPreview::Hidden);
}

#[test]
fn keys_in_each_mode() {
    assert_eq!(keyboard_input(DrawState::Sketching, '\x02'), KeyAction::OpenColorpicker(ColorPosition::Background));
    assert_eq!(keyboard_input(DrawState::Sketching, '\x06'), KeyAction::OpenColorpicker(ColorPosition::Foreground));
    assert_eq!(keyboard_input(DrawState::Sketching, '\x15'), KeyAction::Undo);
    assert_eq!(keyboard_input(DrawState::Sketching, '\x12'), KeyAction::Redo);
    assert_eq!(keyboard_input(DrawState::Sketching, 'x'), KeyAction::Type('x'));
    assert_eq!(keyboard_input(DrawState::Sketching, '\x01'), KeyAction::Nothing);
    assert_eq!(keyboard_input(DrawState::Sketching, '\x1b'), KeyAction::Nothing);
    assert_eq!(keyboard_input(DrawState::Sketching, '\x04'), KeyAction::Quit);
    assert_eq!(keyboard_input(DrawState::Dialog(DialogKind::Save), '\x04'), KeyAction::Quit);
    let line = DrawState::LineDrawing { start: p(1, 1), moved: false };
    assert_eq!(keyboard_input(line, '\x1b'), KeyAction::CancelLine);
    assert_eq!(keyboard_input(line, '\x0c'), KeyAction::Clear);
    for kind in [DialogKind::BrushCharacter, DialogKind::Colorpicker, DialogKind::Save, DialogKind::Help] {
        assert_eq!(keyboard_input(DrawState::Dialog(kind), '\x1b'), KeyAction::CloseDialog);
    }
    assert_eq!(keyboard_input(DrawState::Dialog(DialogKind::BrushCharacter), '\n'), KeyAction::ApplyGlyph);
    assert_eq!(keyboard_input(DrawState::Dialog(DialogKind::Colorpicker), '\x05'), KeyAction::ResetColor);
    assert_eq!(keyboard_input(DrawState::Dialog(DialogKind::Colorpicker), '\n'), KeyAction::ApplyColor);
    assert_eq!(keyboard_input(DrawState::Dialog(DialogKind::Save), '\n'), KeyAction::Save);
    assert_eq!(keyboard_input(DrawState::Dialog(DialogKind::Save), 'a'), KeyAction::DialogInput);
    assert_eq!(keyboard_input(DrawState::Dialog(DialogKind::Help), '\n'), KeyAction::CloseDialog);
    assert_eq!(keyboard_input(DrawState::Dialog(DialogKind::Help), 'a'), KeyAction::Type('a'));
}

#[test]
fn revisions_undo_redo_and_paste() {
    let mut r = Revisions::new();
    assert_eq!(r.bump(), Some(0));
    assert_eq!(r.bump(), Some(1));
    assert_eq!(r.revision(), 2);
    assert_eq!(r.undo_target(), 1);
    assert!(r.set_revision(1));
    assert_eq!(r.redo_target(), Some(2));
    assert!(!r.set_revision(3));
    assert_eq!(r.revision(), 1);
    assert_eq!(r.set_pasting(true), None);
    assert_eq!(r.bump(), None);
    assert_eq!(r.revision(), 1);
    assert_eq!(r.set_pasting(false), Some(1));
    assert_eq!(r.revision(), 2);
    assert!(!r.set_revision(3));
    assert_eq!(Revisions::new().undo_target(), 0);
}

#[test]
fn cell_history_undo_redo() {
    let mut cell = Cell::blank();
    assert!(cell.is_empty());
    cell.replace(content('a'), 0);
    cell.replace(content('b'), 0);
    assert_eq!(cell.content().c, 'b');
    cell.replace(content('c'), 1);
    // Undo revision 1: back to what revision 1 replaced.
    cell.set_revision(2, 1);
    assert_eq!(cell.content().c, 'b');
    // Redo: the content for revision 2 comes back.
    cell.set_revision(1, 2);
    assert_eq!(cell.content().c, 'c');
    // Undo to revision 0: the blank cell.
    cell.set_revision(2, 0);
    assert_eq!(cell.content().c, '\0');
    // Nothing held for revision 7.
    cell.set_revision(0, 7);
    assert_eq!(cell.content().c, '\0');
    assert!(!Cell::new(content('x')).is_empty());
    let mut spaced = Cell::new(content(' '));
    assert!(spaced.is_empty());
    spaced.clear(3);
    assert_eq!(spaced.content().c, '\0');
}

#[test]
fn cell_clear_history_drops_later_revisions() {
    let mut cell = Cell::blank();
    cell.replace(content('a'), 0);
    cell.replace(content('b'), 1);
    cell.replace(content('c'), 2);
    cell.clear_history(0);
    cell.set_revision(3, 2);
    assert_eq!(cell.content().c, 'c');
    cell.set_revision(3, 0);
    assert_eq!(cell.content().c, '\0');
}

#[test]
fn dialog_layout_centres_the_box() {
    let dims = Dimensions { columns: 80, lines: 24 };
    assert_eq!(layout(&vec![10, 30, 5], dims), Some(DialogLayout { column: 23, line: 9, width: 34 }));
    assert_eq!(layout(&vec![], dims), Some(DialogLayout { column: 38, line: 9, width: 4 }));
    assert_eq!(layout(&vec![77], dims), None);
    assert_eq!(layout(&vec![76], dims), Some(DialogLayout { column: 0, line: 9, width: 80 }));
    assert_eq!(layout(&vec![3], Dimensions { columns: 80, lines: 4 }), None);
    let placed = DialogLayout { column: 23, line: 9, width: 34 };
    assert_eq!(cursor_cell(placed, (12, 1)), Some((38, 12)));
    assert_eq!(cursor_cell(placed, (usize::MAX, 0)), None);
}

#[test]
fn text_styles_cycle() {
    let none = TextStyle::empty();
    let bold = none.next();
    let italics = bold.next();
    let both = italics.next();
    assert_eq!(bold, TextStyle { bold: true, italics: false });
    assert_eq!(italics, TextStyle { bold: false, italics: true });
    assert_eq!(both, TextStyle { bold: true, italics: true });
    assert_eq!(both.next(), none);
    assert_eq!(none.name(), "regular");
    assert_eq!(both.name(), "bold italics");
    assert_eq!(none.escape(), "\x1b[22;23m");
    assert_eq!(both.escape(), "\x1b[22;23;1;3m");
    assert_eq!(Color::Named(NamedColor::Green).escape(true), "\x1b[32m");
}

#[test]
fn grid_renders_with_minimal_sequences() {
    let red = CellContent { foreground: Color::Named(NamedColor::Red), ..content('a') };
    let mut wide = Cell::blank();
    wide.replace(content('漢'), 0);
    let lines = vec![
        vec![Cell::new(content('x')), Cell::new(red), Cell::new(red), Cell::blank()],
        vec![wide, Cell::blank(), Cell::new(content('y')), Cell::blank()],
        vec![],
        vec![],
    ];
    assert_eq!(
        sketch::grid::render_grid(&lines),
        "x\x1b[31maa\x1b[39m \n漢y "
    );
    assert_eq!(sketch::grid::render_grid(&vec![]), "");
}

fn row(len: usize) -> Vec<Cell> {
    (0..len).map(|_| Cell::blank()).collect()
}

fn chars(line: &[Cell]) -> String {
    line.iter().map(|c| c.content().c).map(|c| if c == '\0' { '.' } else { c }).collect()
}

#[test]
fn store_run_fills_and_clips() {
    let mut line = row(6);
    assert!(sketch::grid::store_run(&mut line, 2, content('x'), 3, 0));
    assert_eq!(chars(&line), ".xxx..");
    assert!(sketch::grid::store_run(&mut line, 5, content('y'), 9, 1));
    assert_eq!(chars(&line), ".xxxyy");
    assert!(!sketch::grid::store_run(&mut line, 7, content('z'), 1, 2));
    assert!(!sketch::grid::store_run(&mut line, 1, content('\x07'), 1, 2));
    assert!(!sketch::grid::store_run(&mut line, 1, content('z'), 0, 2));
    // Undo revision 1 brings back the blanks.
    line[4].set_revision(2, 1);
    assert_eq!(line[4].content().c, '\0');
}

#[test]
fn store_run_fullwidth_clears_covered_cells() {
    let mut line = row(6);
    assert!(sketch::grid::store_run(&mut line, 2, content('漢'), 2, 0));
    assert_eq!(chars(&line), ".漢.漢..");
    // A copy right of a fullwidth character cuts it in half: it is cleared.
    assert!(sketch::grid::store_run(&mut line, 3, content('a'), 1, 1));
    assert_eq!(chars(&line), "..a漢..");
    // The first copy must fit.
    assert!(!sketch::grid::store_run(&mut line, 6, content('漢'), 1, 2));
}

#[test]
fn write_glyphs_on_the_grid() {
    let mut lines = vec![row(4), row(4)];
    let next = sketch::grid::write_glyphs(&mut lines, p(2, 2), content('o'), 2, 0, true);
    assert_eq!(next, Some(p(4, 2)));
    assert_eq!(chars(&lines[1]), ".oo.");
    assert_eq!(chars(&lines[0]), "....");
    let preview = sketch::grid::write_glyphs(&mut lines, p(1, 1), content('o'), 1, 0, false);
    assert_eq!(preview, Some(p(2, 1)));
    assert_eq!(chars(&lines[0]), "....");
    assert_eq!(sketch::grid::write_glyphs(&mut lines, p(1, 3), content('o'), 1, 0, true), None);
    assert_eq!(sketch::grid::write_glyphs(&mut lines, p(0, 1), content('o'), 1, 0, true), None);
}

#[test]
fn trimmed_text_drops_empty_lines_around_the_sketch() {
    let text: Vec<char> = "  \n \n  ab \n c\n  \n\n".chars().collect();
    let trimmed: String = sketch::grid::trimmed_text(&text).into_iter().collect();
    assert_eq!(trimmed, "  ab \n c\n");
    let blank: Vec<char> = " \n \n".chars().collect();
    let trimmed: String = sketch::grid::trimmed_text(&blank).into_iter().collect();
    assert_eq!(trimmed, "\n");
    let styled: Vec<char> = "\n\x1b[31mx".chars().collect();
    let trimmed: String = sketch::grid::trimmed_text(&styled).into_iter().collect();
    assert_eq!(trimmed, "\x1b[31mx\n");
}

#[test]
fn white_space_matches_the_unicode_property() {
    for c in ['\t', '\n', '\x0b', '\x0c', '\r', ' ', '\u{85}', '\u{a0}', '\u{1680}', '\u{2000}', '\u{200a}', '\u{2028}', '\u{2029}', '\u{202f}', '\u{205f}', '\u{3000}'] {
        assert!(sketch::grid::is_whitespace(c));
        assert_eq!(sketch::grid::is_whitespace(c), c.is_whitespace());
    }
    for c in ['a', '\0', '\x1b', '\u{200b}', '\u{feff}', '漢'] {
        assert!(!sketch::grid::is_whitespace(c));
        assert_eq!(sketch::grid::is_whitespace(c), c.is_whitespace());
    }
}
