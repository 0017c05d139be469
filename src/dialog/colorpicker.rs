//! Dialog for selecting RGB or CTerm colors.
use vstd::prelude::*;

use crate::dialog::{first_line_width, first_width, DialogLine};
use crate::terminal::{named_color_number, Color, NamedColor, Rgb};
use crate::text::{decimal, pop_char, push_char, push_decimal, push_str, string_of};

verus! {

/// Message prompt of the colorpicker dialog.
pub const COLORPICKER_DIALOG_PROMPT: &'static str = "Pick a color: ";

/// Help text of the colorpicker dialog.
pub const COLORPICKER_DIALOG_HELP: &'static str = "[^R] RGB    [^T] CTerm    [^E] Default";

/// Which of the brush's colors is being picked.
#[derive(Copy, Clone, Debug, PartialEq, Eq, Structural)]
pub enum ColorPosition {
    Foreground,
    Background,
}

/// Input mode of the colorpicker: hex digits of an RGB color, or a CTerm
/// color index.
pub enum ColorpickerMode {
    Rgb(String),
    CTerm(u8),
}

/// The value of a hexadecimal digit, either case.
pub open spec fn hex_value(c: char) -> Option<nat> {
    let u = c as u32;
    if 0x30 <= u <= 0x39 {
        Some((u - 0x30) as nat)
    } else if 0x61 <= u <= 0x66 {
        Some((u - 0x61 + 10) as nat)
    } else if 0x41 <= u <= 0x46 {
        Some((u - 0x41 + 10) as nat)
    } else {
        None
    }
}

/// The value of a decimal digit.
pub open spec fn decimal_value(c: char) -> Option<nat> {
    let u = c as u32;
    if 0x30 <= u <= 0x39 { Some((u - 0x30) as nat) } else { None }
}

/// The byte written by two hexadecimal digits.
pub open spec fn hex_byte(hi: char, lo: char) -> u8 {
    (hex_value(hi)->0 * 16 + hex_value(lo)->0) as u8
}

/// The color written as six hexadecimal digits `rrggbb`, `None` for anything else.
pub open spec fn parse_rgb(s: Seq<char>) -> Option<Rgb> {
    if s.len() == 6 && forall|i: int| 0 <= i < 6 ==> #[trigger] hex_value(s[i]) is Some {
        Some(Rgb { r: hex_byte(s[0], s[1]), g: hex_byte(s[2], s[3]), b: hex_byte(s[4], s[5]) })
    } else {
        None
    }
}

/// The lower-case hexadecimal digit for `d`, which is below sixteen.
pub open spec fn hex_digit(d: nat) -> char {
    if d < 10 { (0x30 + d) as char } else { (0x61 + d - 10) as char }
}

/// A byte as two lower-case hexadecimal digits.
pub open spec fn hex_pair(b: u8) -> Seq<char> {
    seq![hex_digit(b as nat / 16), hex_digit(b as nat % 16)]
}

/// The mode a colorpicker opens in for color `c`: CTerm for a named or
/// indexed color, the digits of an RGB color, and empty RGB digits for the
/// default color.
pub open spec fn mode_for(c: Color, m: ColorpickerMode) -> bool {
    match c {
        Color::Named(NamedColor::Default) => m is Rgb && m->Rgb_0@.len() == 0,
        Color::Named(n) => m == ColorpickerMode::CTerm(named_color_number(n) as u8),
        Color::Indexed(i) => m == ColorpickerMode::CTerm(i),
        Color::Rgb(rgb) => m is Rgb && m->Rgb_0@ == hex_pair(rgb.r) + hex_pair(rgb.g) + hex_pair(
            rgb.b,
        ),
    }
}

/// The color a mode selects: the CTerm index, or the RGB digits when they
/// form a color, else the default color.
pub open spec fn mode_color(m: ColorpickerMode) -> Color {
    match m {
        ColorpickerMode::CTerm(c) => Color::Indexed(c),
        ColorpickerMode::Rgb(s) => match parse_rgb(s@) {
            Some(rgb) => Color::Rgb(rgb),
            None => Color::Named(NamedColor::Default),
        },
    }
}

/// The CTerm index after a keystroke: DEL drops the last decimal digit, a
/// decimal digit is appended (saturating at 255), anything else is ignored.
pub open spec fn cterm_after(c: u8, glyph: char) -> u8 {
    if glyph == '\x7f' {
        c / 10
    } else if decimal_value(glyph) is Some {
        let v = c * 10 + decimal_value(glyph)->0;
        if v > 255 { 255 } else { v as u8 }
    } else {
        c
    }
}

/// The RGB digits after a keystroke: DEL drops the last one, a hexadecimal
/// digit is appended while fewer than six are there, anything else is
/// ignored.
pub open spec fn rgb_after(s: Seq<char>, glyph: char) -> Seq<char> {
    if glyph == '\x7f' {
        if s.len() > 0 { s.drop_last() } else { s }
    } else if s.len() < 6 && hex_value(glyph) is Some {
        s.push(glyph)
    } else {
        s
    }
}

/// The mode as shown after the prompt: `#` and the digits, or the index.
pub open spec fn mode_text(m: ColorpickerMode) -> Seq<char> {
    match m {
        ColorpickerMode::Rgb(s) => seq!['#'] + s@,
        ColorpickerMode::CTerm(c) => decimal(c as nat),
    }
}

fn hex_value_of(c: char) -> (r: Option<u8>)
    ensures
        r is Some <==> hex_value(c) is Some,
        r is Some ==> r->0 as nat == hex_value(c)->0 && r->0 < 16,
{
    let u = c as u32;
    if 0x30 <= u && u <= 0x39 {
        Some((u - 0x30) as u8)
    } else if 0x61 <= u && u <= 0x66 {
        Some((u - 0x61 + 10) as u8)
    } else if 0x41 <= u && u <= 0x46 {
        Some((u - 0x41 + 10) as u8)
    } else {
        None
    }
}

fn hex_digit_of(d: u8) -> (c: char)
    requires
        d < 16,
    ensures
        c == hex_digit(d as nat),
{
    if d < 10 { (0x30 + d) as char } else { (0x61 + d - 10) as char }
}

impl Rgb {
    /// The color written as six hexadecimal digits `rrggbb`.
    pub fn from_hex(s: &str) -> (r: Option<Rgb>)
        ensures
            r == parse_rgb(s@),
    {
        if s.unicode_len() != 6 {
            return None;
        }
        let mut v: [u8; 6] = [0; 6];
        let mut i: usize = 0;
        while i < 6
            invariant
                s@.len() == 6,
                i <= 6,
                forall|j: int| 0 <= j < i ==> #[trigger] hex_value(s@[j]) is Some && v[j] as nat
                    == hex_value(s@[j])->0 && v[j] < 16,
            decreases 6 - i,
        {
            match hex_value_of(s.get_char(i)) {
                Some(d) => {
                    v[i] = d;
                },
                None => {
                    return None;
                },
            }
            i = i + 1;
        }
        Some(Rgb { r: v[0] * 16 + v[1], g: v[2] * 16 + v[3], b: v[4] * 16 + v[5] })
    }
}

impl std::str::FromStr for Rgb {
    type Err = ();

    /// The color written as six hexadecimal digits `rrggbb`.
    fn from_str(s: &str) -> Result<Rgb, ()> {
        match Rgb::from_hex(s) {
            Some(rgb) => Ok(rgb),
            None => Err(()),
        }
    }
}

impl ColorpickerMode {
    /// The mode a colorpicker opens in for `color`.
    pub fn from_color(color: Color) -> (m: ColorpickerMode)
        ensures
            mode_for(color, m),
    {
        match color {
            Color::Named(NamedColor::Default) => ColorpickerMode::Rgb(String::new()),
            Color::Named(n) => ColorpickerMode::CTerm(n.number()),
            Color::Indexed(i) => ColorpickerMode::CTerm(i),
            Color::Rgb(rgb) => {
                let mut s = String::new();
                push_char(&mut s, hex_digit_of(rgb.r / 16));
                push_char(&mut s, hex_digit_of(rgb.r % 16));
                push_char(&mut s, hex_digit_of(rgb.g / 16));
                push_char(&mut s, hex_digit_of(rgb.g % 16));
                push_char(&mut s, hex_digit_of(rgb.b / 16));
                push_char(&mut s, hex_digit_of(rgb.b % 16));
                assert(s@ =~= hex_pair(rgb.r) + hex_pair(rgb.g) + hex_pair(rgb.b));
                ColorpickerMode::Rgb(s)
            },
        }
    }

    /// Process a keystroke in the current mode.
    pub fn keyboard_input(&mut self, glyph: char)
        ensures
            match *old(self) {
                ColorpickerMode::CTerm(c) => *final(self) == ColorpickerMode::CTerm(cterm_after(c, glyph)),
                ColorpickerMode::Rgb(s) => *final(self) is Rgb && (*final(self))->Rgb_0@ == rgb_after(s@, glyph),
            },
    {
        match self {
            ColorpickerMode::CTerm(_) => self.cterm_input(glyph),
            ColorpickerMode::Rgb(_) => self.rgb_input(glyph),
        }
    }

    /// The selected color.
    pub fn color(&self) -> (c: Color)
        ensures
            c == mode_color(*self),
    {
        match self {
            ColorpickerMode::CTerm(c) => Color::Indexed(*c),
            ColorpickerMode::Rgb(s) => match Rgb::from_hex(s.as_str()) {
                Some(rgb) => Color::Rgb(rgb),
                None => Color::default(),
            },
        }
    }

    /// Process a keystroke in CTerm mode; other modes are left alone.
    pub fn cterm_input(&mut self, glyph: char)
        ensures
            match *old(self) {
                ColorpickerMode::CTerm(c) => *final(self) == ColorpickerMode::CTerm(cterm_after(c, glyph)),
                _ => *final(self) == *old(self),
            },
    {
        let c = match self {
            ColorpickerMode::CTerm(c) => *c,
            _ => return,
        };
        let next = if glyph == '\x7f' {
            c / 10
        } else {
            let u = glyph as u32;
            if 0x30 <= u && u <= 0x39 {
                let v: u32 = c as u32 * 10 + (u - 0x30);
                if v > 255 { 255 } else { v as u8 }
            } else {
                c
            }
        };
        *self = ColorpickerMode::CTerm(next);
    }

    /// Process a keystroke in RGB mode; other modes are left alone.
    pub fn rgb_input(&mut self, glyph: char)
        ensures
            match *old(self) {
                ColorpickerMode::Rgb(s) => *final(self) is Rgb && (*final(self))->Rgb_0@ == rgb_after(s@, glyph),
                _ => *final(self) == *old(self),
            },
    {
        match self {
            ColorpickerMode::Rgb(s) => {
                if glyph == '\x7f' {
                    let _ = pop_char(s);
                } else if s.as_str().unicode_len() < 6 && hex_value_of(glyph).is_some() {
                    push_char(s, glyph);
                }
            },
            _ => {},
        }
    }

    /// The mode as shown after the prompt.
    pub fn text(&self) -> (s: String)
        ensures
            s@ == mode_text(*self),
    {
        let mut s = String::new();
        match self {
            ColorpickerMode::Rgb(digits) => {
                push_char(&mut s, '#');
                push_str(&mut s, digits.as_str());
            },
            ColorpickerMode::CTerm(c) => {
                push_decimal(&mut s, *c as u64);
            },
        }
        assert(s@ =~= mode_text(*self));
        s
    }
}

/// Dialog for selecting RGB or CTerm colors.
pub struct ColorpickerDialog {
    color_position: ColorPosition,
    mode: ColorpickerMode,
    foreground: Color,
    background: Color,
}

impl ColorpickerDialog {
    /// Which color is being picked.
    pub closed spec fn position_spec(&self) -> ColorPosition {
        self.color_position
    }

    /// The input mode.
    pub closed spec fn mode_spec(&self) -> ColorpickerMode {
        self.mode
    }

    /// The brush's foreground when the dialog opened.
    pub closed spec fn foreground_spec(&self) -> Color {
        self.foreground
    }

    /// The brush's background when the dialog opened.
    pub closed spec fn background_spec(&self) -> Color {
        self.background
    }

    /// Open the dialog for the color at `color_position`, starting from its
    /// current value.
    pub fn new(color_position: ColorPosition, foreground: Color, background: Color) -> (d:
        ColorpickerDialog)
        ensures
            d.position_spec() == color_position,
            d.foreground_spec() == foreground,
            d.background_spec() == background,
            mode_for(
                if color_position == ColorPosition::Foreground { foreground } else { background },
                d.mode_spec(),
            ),
    {
        let mode = match color_position {
            ColorPosition::Foreground => ColorpickerMode::from_color(foreground),
            ColorPosition::Background => ColorpickerMode::from_color(background),
        };
        ColorpickerDialog { color_position, mode, foreground, background }
    }

    /// Process a keystroke: `^R` switches to empty RGB digits, `^T` to CTerm
    /// index 0, anything else goes to the current mode.
    pub fn keyboard_input(&mut self, glyph: char)
        ensures
            final(self).position_spec() == old(self).position_spec(),
            final(self).foreground_spec() == old(self).foreground_spec(),
            final(self).background_spec() == old(self).background_spec(),
            glyph == '\x12' ==> final(self).mode_spec() is Rgb && final(self).mode_spec()->Rgb_0@.len() == 0,
            glyph == '\x14' ==> final(self).mode_spec() == ColorpickerMode::CTerm(0),
            glyph != '\x12' && glyph != '\x14' ==> match old(self).mode_spec() {
                ColorpickerMode::CTerm(c) => final(self).mode_spec() == ColorpickerMode::CTerm(cterm_after(c, glyph)),
                ColorpickerMode::Rgb(s) => final(self).mode_spec() is Rgb && final(self).mode_spec()->Rgb_0@ == rgb_after(s@, glyph),
            },
    {
        if glyph == '\x12' {
            self.mode = ColorpickerMode::Rgb(String::new());
        } else if glyph == '\x14' {
            self.mode = ColorpickerMode::CTerm(0);
        } else {
            self.mode.keyboard_input(glyph);
        }
    }

    /// Color which is being changed.
    pub fn color_position(&self) -> (p: ColorPosition)
        ensures
            p == self.position_spec(),
    {
        self.color_position
    }

    /// Selected color.
    pub fn color(&self) -> (c: Color)
        ensures
            c == mode_color(self.mode_spec()),
    {
        self.mode.color()
    }

    /// The dialog's text: the prompt with the mode, an empty line, the help.
    pub fn lines(&self) -> (r: Vec<String>)
        ensures
            r@.len() == 3,
            r@[0]@ == COLORPICKER_DIALOG_PROMPT@ + mode_text(self.mode_spec()),
            r@[1]@.len() == 0,
            r@[2]@ == COLORPICKER_DIALOG_HELP@,
    {
        let mut first = string_of(COLORPICKER_DIALOG_PROMPT);
        let t = self.mode.text();
        push_str(&mut first, t.as_str());
        let mut r = Vec::new();
        r.push(first);
        r.push(String::new());
        r.push(string_of(COLORPICKER_DIALOG_HELP));
        r
    }

    /// Foreground and background of the box drawing characters: the color
    /// being picked in place of its current value.
    pub fn box_color(&self) -> (r: (Color, Color))
        ensures
            r == (match self.position_spec() {
                ColorPosition::Foreground => (mode_color(self.mode_spec()), self.background_spec()),
                ColorPosition::Background => (self.foreground_spec(), mode_color(self.mode_spec())),
            }),
    {
        match self.color_position {
            ColorPosition::Foreground => (self.color(), self.background),
            ColorPosition::Background => (self.foreground, self.color()),
        }
    }

    /// Cursor position within the dialog: at the end of the first line, one
    /// column back while no CTerm digit has been typed.
    pub fn cursor_position(&self, lines: &Vec<DialogLine>) -> (p: (usize, usize))
        ensures
            p.1 == 0,
            (self.mode_spec() == ColorpickerMode::CTerm(0) && first_width(lines@) > 0) ==> p.0 == first_width(lines@) - 1,
            !(self.mode_spec() == ColorpickerMode::CTerm(0) && first_width(lines@) > 0) ==> p.0 == first_width(lines@),
    {
        let w = first_line_width(lines);
        let empty_cterm = match self.mode {
            ColorpickerMode::CTerm(c) => c == 0,
            _ => false,
        };
        if empty_cterm && w > 0 { (w - 1, 0) } else { (w, 0) }
    }
}

} // verus!
