use sketch::dialog::brush_character::BrushCharacterDialog;
use sketch::dialog::colorpicker::{ColorPosition, ColorpickerDialog, ColorpickerMode};
use sketch::dialog::help::HelpDialog;
use sketch::dialog::open::OpenDialog;
use sketch::dialog::save::SaveDialog;
use sketch::dialog::{DialogLine, DialogUpdate};
use sketch::terminal::{Color, NamedColor, Rgb};
use sketch::text::{char_width, str_width};

fn line(text: &str) -> DialogLine {
    DialogLine::new(text.to_string(), text.to_string())
}

#[test]
fn widths_from_unicode_tables() {
    assert_eq!(char_width('a'), Some(1));
    assert_eq!(char_width('\x1b'), None);
    assert_eq!(char_width('漢'), Some(2));
    assert_eq!(str_width("ab漢"), 4);
    assert_eq!(line("abc").width(), 3);
    assert_eq!(DialogLine::new("\x1b[32mab".to_string(), "ab".to_string()).width(), 2);
}

#[test]
fn brush_character_dialog() {
    let mut d = BrushCharacterDialog::new('+');
    assert_eq!(d.lines(), vec!["Pick a brush character: +".to_string()]);
    assert_eq!(d.keyboard_input('\x01'), DialogUpdate::Unchanged);
    assert_eq!(d.glyph(), '+');
    assert_eq!(d.keyboard_input('#'), DialogUpdate::Render);
    assert_eq!(d.glyph(), '#');
    let lines = vec![line("Pick a brush character: #")];
    assert_eq!(d.cursor_position(&lines), (24, 0));
}

#[test]
fn open_dialog_editing() {
    let mut d = OpenDialog::new();
    assert_eq!(d.keyboard_input('\x02'), DialogUpdate::Unchanged);
    assert_eq!(d.keyboard_input('a'), DialogUpdate::Render);
    assert_eq!(d.keyboard_input('b'), DialogUpdate::Render);
    assert_eq!(d.text(), "ab");
    assert_eq!(d.keyboard_input('\x7f'), DialogUpdate::Render);
    assert_eq!(d.text(), "a");
    d.mark_failed();
    assert_eq!(d.box_color(), (Color::Named(NamedColor::Red), Color::default()));
    assert_eq!(d.keyboard_input('c'), DialogUpdate::Render);
    assert_eq!(d.box_color(), (Color::default(), Color::default()));
    assert_eq!(d.lines(), vec!["Sketch path:".to_string(), "ac".to_string()]);
    assert_eq!(d.cursor_position(&vec![line("Sketch path:"), line("ac")]), (2, 1));
}

#[test]
fn open_dialog_shrinking_asks_for_redraw() {
    let mut d = OpenDialog::new();
    for c in "abcdefghijkl".chars() {
        d.keyboard_input(c);
    }
    // Twelve columns are as wide as the prompt: removing one shrinks nothing.
    assert_eq!(d.keyboard_input('m'), DialogUpdate::Render);
    assert_eq!(d.keyboard_input('\x7f'), DialogUpdate::Redraw);
    assert_eq!(d.keyboard_input('\x7f'), DialogUpdate::Render);
}

#[test]
fn save_dialog_prompts() {
    let d = SaveDialog::new(String::from("out.txt"), true, true);
    assert!(d.shutdown_on_save());
    assert_eq!(d.prompt(), "Output path (leave empty for stdout):");
    assert_eq!(d.box_color().0, Color::Named(NamedColor::Red));
    let mut d = SaveDialog::new(String::new(), false, false);
    assert!(!d.shutdown_on_save());
    assert_eq!(d.prompt(), "Output path:");
    d.keyboard_input('x');
    assert_eq!(d.lines(), vec!["Output path:".to_string(), "x".to_string()]);
}

#[test]
fn colorpicker_opens_in_matching_mode() {
    let d = ColorpickerDialog::new(
        ColorPosition::Foreground,
        Color::Rgb(Rgb { r: 0xab, g: 0x01, b: 0xff }),
        Color::default(),
    );
    assert_eq!(d.color_position(), ColorPosition::Foreground);
    assert_eq!(d.lines()[0], "Pick a color: #ab01ff");
    assert_eq!(d.color(), Color::Rgb(Rgb { r: 0xab, g: 0x01, b: 0xff }));
    let d = ColorpickerDialog::new(ColorPosition::Background, Color::default(), Color::Indexed(42));
    assert_eq!(d.lines()[0], "Pick a color: 42");
    assert_eq!(d.color(), Color::Indexed(42));
    assert_eq!(d.box_color(), (Color::default(), Color::Indexed(42)));
    let d = ColorpickerDialog::new(ColorPosition::Foreground, Color::default(), Color::default());
    assert_eq!(d.lines()[0], "Pick a color: #");
    assert_eq!(d.color(), Color::default());
}

#[test]
fn colorpicker_cterm_input() {
    let mut d = ColorpickerDialog::new(ColorPosition::Foreground, Color::default(), Color::default());
    d.keyboard_input('\x14');
    assert_eq!(d.color(), Color::Indexed(0));
    assert_eq!(d.cursor_position(&vec![line("Pick a color: 0")]), (14, 0));
    d.keyboard_input('2');
    d.keyboard_input('x');
    d.keyboard_input('5');
    assert_eq!(d.color(), Color::Indexed(25));
    assert_eq!(d.cursor_position(&vec![line("Pick a color: 25")]), (16, 0));
    d.keyboard_input('9');
    assert_eq!(d.color(), Color::Indexed(255));
    d.keyboard_input('\x7f');
    assert_eq!(d.color(), Color::Indexed(25));
}

#[test]
fn colorpicker_rgb_input() {
    let mut mode = ColorpickerMode::CTerm(7);
    mode.rgb_input('a');
    assert_eq!(mode.color(), Color::Indexed(7));
    let mut d = ColorpickerDialog::new(ColorPosition::Background, Color::default(), Color::Indexed(1));
    d.keyboard_input('\x12');
    for c in "0A0g0b0c".chars() {
        d.keyboard_input(c);
    }
    assert_eq!(d.lines()[0], "Pick a color: #0A00b0");
    assert_eq!(d.color(), Color::Rgb(Rgb { r: 0x0a, g: 0x00, b: 0xb0 }));
    d.keyboard_input('\x7f');
    assert_eq!(d.color(), Color::default());
    assert_eq!(Rgb::from_hex("12345z"), None);
    assert_eq!(Rgb::from_hex("ffFF00"), Some(Rgb { r: 255, g: 255, b: 0 }));
    assert_eq!("0a0b0c".parse::<Rgb>(), Ok(Rgb { r: 10, g: 11, b: 12 }));
    assert_eq!("0a0b0".parse::<Rgb>(), Err(()));
}

#[test]
fn help_dialog_lines() {
    let lines = HelpDialog::new().lines();
    assert_eq!(lines.len(), 15);
    assert_eq!(lines[0], "MOUSE WHEEL        \x1b[32mbrush size\x1b[39m change");
    assert_eq!(lines[14], "ESC                \x1b[32mclose\x1b[39m dialog");
}
