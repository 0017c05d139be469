use sketch::brush::{Brush, Point};
use sketch::dialog::colorpicker::ColorPosition;
use sketch::terminal::{Color, NamedColor};

#[test]
fn cursor() {
    let cursor = Brush::create_template(1);
    assert_eq!(cursor, vec![vec![true]]);

    let cursor = Brush::create_template(2);
    assert_eq!(cursor, vec![
        vec![true, true],
    ]);

    let cursor = Brush::create_template(3);
    assert_eq!(cursor, vec![
        vec![true, true, true],
        vec![true, true, true],
    ]);

    let cursor = Brush::create_template(6);
    assert_eq!(cursor, vec![
        vec![false, false, true, true, true, true, true, true, false, false],
        vec![false, true,  true, true, true, true, true, true, true,  false],
        vec![true,  true,  true, true, true, true, true, true, true,  true ],
        vec![false, true,  true, true, true, true, true, true, true,  false],
        vec![false, false, true, true, true, true, true, true, false, false],
    ]);
}

#[test]
fn template_of_size_seven_is_symmetric() {
    let t = Brush::create_template(7);
    let widths: Vec<usize> = t.iter().map(|row| row.iter().filter(|c| **c).count()).collect();
    assert_eq!(widths, vec![7, 9, 11, 11, 9, 7]);
    assert!(t.iter().all(|row| row.len() == 11));
}

#[test]
fn default_brush_and_set_color() {
    let mut brush = Brush::default();
    assert_eq!(brush.glyph, '+');
    assert_eq!(brush.size, 1);
    assert_eq!(brush.position, Point { column: 1, line: 1 });
    brush.set_color(ColorPosition::Background, Color::Indexed(3));
    assert_eq!(brush.background, Color::Indexed(3));
    assert_eq!(brush.foreground, Color::Named(NamedColor::Default));
    brush.set_color(ColorPosition::Foreground, Color::Named(NamedColor::Red));
    assert_eq!(brush.foreground, Color::Named(NamedColor::Red));
}
