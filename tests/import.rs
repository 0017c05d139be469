use sketch::brush::Point;
use sketch::import::{handle_colon_rgb, parse_sgr_color, SketchParser, TextAttributes, TextStyle};
use sketch::terminal::{Color, NamedColor, Rgb};

fn groups(values: &[&[u16]]) -> Vec<Vec<u16>> {
    values.iter().map(|g| g.to_vec()).collect()
}

#[test]
fn sgr_color_specifiers() {
    assert_eq!(parse_sgr_color(&vec![2, 1, 2, 3], 0), (Some(Color::Rgb(Rgb { r: 1, g: 2, b: 3 })), 4));
    assert_eq!(parse_sgr_color(&vec![9, 5, 17], 1), (Some(Color::Indexed(17)), 2));
    assert_eq!(parse_sgr_color(&vec![2, 1, 300, 3], 0), (None, 3));
    assert_eq!(parse_sgr_color(&vec![7], 0), (None, 1));
    assert_eq!(parse_sgr_color(&vec![], 0), (None, 0));
    assert_eq!(handle_colon_rgb(&vec![2, 0, 10, 20, 30]), Some(Color::Rgb(Rgb { r: 10, g: 20, b: 30 })));
    assert_eq!(handle_colon_rgb(&vec![2, 10, 20, 30]), Some(Color::Rgb(Rgb { r: 10, g: 20, b: 30 })));
    assert_eq!(handle_colon_rgb(&vec![5, 99]), Some(Color::Indexed(99)));
}

#[test]
fn sgr_sequences_update_attributes() {
    let parser = SketchParser::new(Point { column: 3, line: 2 });
    let mut a = TextAttributes::plain();
    parser.csi_dispatch(&mut a, &groups(&[&[1], &[31], &[48], &[5], &[200]]), &vec![], false, 'm');
    assert_eq!(a.style, TextStyle { bold: true, italics: false });
    assert_eq!(a.foreground, Color::Named(NamedColor::Red));
    assert_eq!(a.background, Color::Indexed(200));
    parser.csi_dispatch(&mut a, &groups(&[&[38, 2, 1, 2, 3], &[3], &[21]]), &vec![], false, 'm');
    assert_eq!(a.foreground, Color::Rgb(Rgb { r: 1, g: 2, b: 3 }));
    assert_eq!(a.style, TextStyle { bold: false, italics: true });
    parser.csi_dispatch(&mut a, &groups(&[&[0]]), &vec![b'?'], false, 'm');
    assert_eq!(a.style, TextStyle { bold: false, italics: true });
    parser.csi_dispatch(&mut a, &groups(&[&[47], &[39]]), &vec![], false, 'm');
    assert_eq!(a.background, Color::Named(NamedColor::White));
    assert_eq!(a.foreground, Color::Named(NamedColor::Default));
    parser.csi_dispatch(&mut a, &vec![], &vec![], false, 'm');
    assert_eq!(a, TextAttributes::plain());
}

#[test]
fn newline_returns_to_origin_column() {
    let mut parser = SketchParser::new(Point { column: 3, line: 2 });
    parser.point = Point { column: 9, line: 2 };
    parser.execute(b'\t');
    assert_eq!(parser.point, Point { column: 9, line: 2 });
    parser.execute(b'\n');
    assert_eq!(parser.point, Point { column: 3, line: 3 });
}
