//! Importing existing sketches: text attributes from SGR sequences and the
//! write position.
use vstd::prelude::*;

use crate::brush::Point;
use crate::terminal::{csi, Color, NamedColor, Rgb};
use crate::text::push_char;

verus! {

/// Text style flags.
#[derive(Copy, Clone, Debug, PartialEq, Eq, Structural)]
pub struct TextStyle {
    pub bold: bool,
    pub italics: bool,
}

/// The SGR sequence that switches bold and italics off, then on as `s` has them.
pub open spec fn style_sequence(s: TextStyle) -> Seq<char> {
    csi() + seq!['2', '2', ';', '2', '3'] + (if s.bold { seq![';', '1'] } else { Seq::empty() }) + (
    if s.italics {
        seq![';', '3']
    } else {
        Seq::empty()
    }) + seq!['m']
}

impl TextStyle {
    /// No style.
    pub fn empty() -> (s: TextStyle)
        ensures
            !s.bold && !s.italics,
    {
        TextStyle { bold: false, italics: false }
    }

    /// The next style in the cycle none, bold, italics, bold italics.
    pub fn next(self) -> (s: TextStyle)
        ensures
            (!self.bold && !self.italics) ==> s.bold && !s.italics,
            (self.bold && !self.italics) ==> !s.bold && s.italics,
            (!self.bold && self.italics) ==> s.bold && s.italics,
            (self.bold && self.italics) ==> !s.bold && !s.italics,
    {
        if !self.bold {
            TextStyle { bold: true, italics: self.italics }
        } else {
            TextStyle { bold: false, italics: !self.italics }
        }
    }

    /// The style's name.
    pub fn name(self) -> (n: &'static str)
        ensures
            (!self.bold && !self.italics) ==> n@ == "regular"@,
            (self.bold && !self.italics) ==> n@ == "bold"@,
            (!self.bold && self.italics) ==> n@ == "italics"@,
            (self.bold && self.italics) ==> n@ == "bold italics"@,
    {
        if self.bold && self.italics {
            "bold italics"
        } else if self.bold {
            "bold"
        } else if self.italics {
            "italics"
        } else {
            "regular"
        }
    }

    /// The SGR sequence that selects this style.
    pub fn escape(self) -> (r: String)
        ensures
            r@ == style_sequence(self),
    {
        let mut r = String::new();
        push_char(&mut r, '\x1b');
        push_char(&mut r, '[');
        push_char(&mut r, '2');
        push_char(&mut r, '2');
        push_char(&mut r, ';');
        push_char(&mut r, '2');
        push_char(&mut r, '3');
        if self.bold {
            push_char(&mut r, ';');
            push_char(&mut r, '1');
        }
        if self.italics {
            push_char(&mut r, ';');
            push_char(&mut r, '3');
        }
        push_char(&mut r, 'm');
        assert(r@ =~= style_sequence(self));
        r
    }
}

/// The attributes that following characters are written with.
#[derive(Copy, Clone, Debug, PartialEq, Eq, Structural)]
pub struct TextAttributes {
    pub style: TextStyle,
    pub foreground: Color,
    pub background: Color,
}

/// Plain text: no style, default colors.
pub open spec fn plain() -> TextAttributes {
    TextAttributes {
        style: TextStyle { bold: false, italics: false },
        foreground: Color::Named(NamedColor::Default),
        background: Color::Named(NamedColor::Default),
    }
}

/// The first value of a parameter group; an empty group counts as 0.
pub open spec fn first_value(g: Seq<u16>) -> u16 {
    if g.len() > 0 { g[0] } else { 0 }
}

/// A color specifier at the start of `vals`: `2;r;g;b` or `5;index`. The
/// result is the color, when the values form one, and how many values were
/// taken, a failed specifier included up to the value where it failed.
pub open spec fn parse_sgr_color_spec(vals: Seq<u16>) -> (Option<Color>, nat) {
    if vals.len() == 0 {
        (None, 0)
    } else if vals[0] == 2 {
        if vals.len() < 2 {
            (None, 1)
        } else if vals[1] > 255 {
            (None, 2)
        } else if vals.len() < 3 {
            (None, 2)
        } else if vals[2] > 255 {
            (None, 3)
        } else if vals.len() < 4 {
            (None, 3)
        } else if vals[3] > 255 {
            (None, 4)
        } else {
            (Some(Color::Rgb(Rgb { r: vals[1] as u8, g: vals[2] as u8, b: vals[3] as u8 })), 4)
        }
    } else if vals[0] == 5 {
        if vals.len() < 2 {
            (None, 1)
        } else if vals[1] > 255 {
            (None, 2)
        } else {
            (Some(Color::Indexed(vals[1] as u8)), 2)
        }
    } else {
        (None, 1)
    }
}

/// The color of a colon-separated specifier after `38` or `48`
/// (`38:2:r:g:b`, `38:2:cs:r:g:b`, `38:5:i`): with more than four values the
/// second is a color space and is skipped.
pub open spec fn colon_color_spec(rest: Seq<u16>) -> Option<Color> {
    let start: int = if rest.len() > 4 { 2 } else { 1 };
    parse_sgr_color_spec(seq![rest[0]] + rest.subrange(start, rest.len() as int)).0
}

/// The named color of an SGR code `30`..`37` or `40`..`47`, by its last digit.
pub open spec fn named_of(d: nat) -> NamedColor {
    if d == 0 {
        NamedColor::Black
    } else if d == 1 {
        NamedColor::Red
    } else if d == 2 {
        NamedColor::Green
    } else if d == 3 {
        NamedColor::Yellow
    } else if d == 4 {
        NamedColor::Blue
    } else if d == 5 {
        NamedColor::Magenta
    } else if d == 6 {
        NamedColor::Cyan
    } else {
        NamedColor::White
    }
}

/// The attributes after one parameter group `g` that stands alone, not
/// `38` or `48` (which take the groups that follow).
pub open spec fn sgr_single(a: TextAttributes, g: Seq<u16>) -> TextAttributes {
    if g == seq![0u16] {
        plain()
    } else if g == seq![1u16] {
        TextAttributes { style: TextStyle { bold: true, ..a.style }, ..a }
    } else if g == seq![3u16] {
        TextAttributes { style: TextStyle { italics: true, ..a.style }, ..a }
    } else if g == seq![21u16] {
        TextAttributes { style: TextStyle { bold: false, ..a.style }, ..a }
    } else if g == seq![23u16] {
        TextAttributes { style: TextStyle { italics: false, ..a.style }, ..a }
    } else if g.len() == 1 && 30 <= g[0] <= 37 {
        TextAttributes { foreground: Color::Named(named_of((g[0] - 30) as nat)), ..a }
    } else if g == seq![39u16] {
        TextAttributes { foreground: Color::Named(NamedColor::Default), ..a }
    } else if g.len() == 1 && 40 <= g[0] <= 47 {
        TextAttributes { background: Color::Named(named_of((g[0] - 40) as nat)), ..a }
    } else if g == seq![49u16] {
        TextAttributes { background: Color::Named(NamedColor::Default), ..a }
    } else if g.len() > 1 && g[0] == 38 {
        match colon_color_spec(g.drop_first()) {
            Some(c) => TextAttributes { foreground: c, ..a },
            None => a,
        }
    } else if g.len() > 1 && g[0] == 48 {
        match colon_color_spec(g.drop_first()) {
            Some(c) => TextAttributes { background: c, ..a },
            None => a,
        }
    } else {
        a
    }
}

/// The first values of the groups from `i` on.
pub open spec fn firsts_from(groups: Seq<Seq<u16>>, i: int) -> Seq<u16> {
    groups.subrange(i, groups.len() as int).map_values(|g: Seq<u16>| first_value(g))
}

/// The attributes after the SGR parameter groups from `i` on. A lone `38`
/// or `48` takes a color specifier from the first values of the groups that
/// follow it.
pub open spec fn sgr_from(a: TextAttributes, groups: Seq<Seq<u16>>, i: int) -> TextAttributes
    decreases groups.len() - i,
{
    if i < 0 || i >= groups.len() {
        a
    } else {
        let g = groups[i];
        if g == seq![38u16] || g == seq![48u16] {
            let (c, taken) = parse_sgr_color_spec(firsts_from(groups, i + 1));
            let next = match c {
                Some(c) => if g[0] == 38 {
                    TextAttributes { foreground: c, ..a }
                } else {
                    TextAttributes { background: c, ..a }
                },
                None => a,
            };
            sgr_from(next, groups, i + 1 + taken)
        } else {
            sgr_from(sgr_single(a, g), groups, i + 1)
        }
    }
}

fn color_value(v: u16) -> (r: Option<u8>)
    ensures
        v <= 255 ==> r == Some(v as u8),
        v > 255 ==> r is None,
{
    if v <= 255 { Some(v as u8) } else { None }
}

/// Parse a color specifier from `vals`, starting at `start`: the color, when
/// the values form one, and how many values were taken.
pub fn parse_sgr_color(vals: &Vec<u16>, start: usize) -> (r: (Option<Color>, usize))
    requires
        start <= vals@.len(),
    ensures
        (r.0, r.1 as nat) == parse_sgr_color_spec(vals@.subrange(start as int, vals@.len() as int)),
{
    let ghost v = vals@.subrange(start as int, vals@.len() as int);
    let n = vals.len() - start;
    if n == 0 {
        return (None, 0);
    }
    let kind = vals[start];
    if kind == 2 {
        if n < 2 {
            return (None, 1);
        }
        let r = match color_value(vals[start + 1]) {
            Some(r) => r,
            None => return (None, 2),
        };
        if n < 3 {
            return (None, 2);
        }
        let g = match color_value(vals[start + 2]) {
            Some(g) => g,
            None => return (None, 3),
        };
        if n < 4 {
            return (None, 3);
        }
        let b = match color_value(vals[start + 3]) {
            Some(b) => b,
            None => return (None, 4),
        };
        (Some(Color::Rgb(Rgb { r, g, b })), 4)
    } else if kind == 5 {
        if n < 2 {
            return (None, 1);
        }
        match color_value(vals[start + 1]) {
            Some(i) => (Some(Color::Indexed(i)), 2),
            None => (None, 2),
        }
    } else {
        (None, 1)
    }
}

/// The color of a colon-separated specifier after `38` or `48`.
pub fn handle_colon_rgb(rest: &Vec<u16>) -> (r: Option<Color>)
    requires
        rest@.len() >= 1,
    ensures
        r == colon_color_spec(rest@),
{
    let start: usize = if rest.len() > 4 { 2 } else { 1 };
    let mut vals: Vec<u16> = Vec::new();
    vals.push(rest[0]);
    let mut i: usize = start;
    while i < rest.len()
        invariant
            start <= i <= rest@.len(),
            vals@ == seq![rest@[0]] + rest@.subrange(start as int, i as int),
        decreases rest@.len() - i,
    {
        vals.push(rest[i]);
        i = i + 1;
        assert(vals@ =~= seq![rest@[0]] + rest@.subrange(start as int, i as int));
    }
    let (c, _) = parse_sgr_color(&vals, 0);
    assert(vals@.subrange(0, vals@.len() as int) =~= vals@);
    c
}

fn is_group(g: &Vec<u16>, v: u16) -> (r: bool)
    ensures
        r == (g@ == seq![v]),
{
    if g.len() == 1 && g[0] == v {
        assert(g@ =~= seq![v]);
        true
    } else {
        false
    }
}

fn named_color_of(d: u16) -> (c: NamedColor)
    requires
        d < 8,
    ensures
        c == named_of(d as nat),
{
    match d {
        0 => NamedColor::Black,
        1 => NamedColor::Red,
        2 => NamedColor::Green,
        3 => NamedColor::Yellow,
        4 => NamedColor::Blue,
        5 => NamedColor::Magenta,
        6 => NamedColor::Cyan,
        _ => NamedColor::White,
    }
}

fn tail_of(g: &Vec<u16>) -> (r: Vec<u16>)
    requires
        g@.len() >= 1,
    ensures
        r@ == g@.drop_first(),
{
    let mut r: Vec<u16> = Vec::new();
    let mut i: usize = 1;
    while i < g.len()
        invariant
            1 <= i <= g@.len(),
            r@ == g@.subrange(1, i as int),
        decreases g@.len() - i,
    {
        r.push(g[i]);
        i = i + 1;
        assert(r@ =~= g@.subrange(1, i as int));
    }
    assert(g@.subrange(1, i as int) =~= g@.drop_first());
    r
}

impl TextAttributes {
    /// Plain text: no style, default colors.
    pub fn plain() -> (a: TextAttributes)
        ensures
            a == plain(),
    {
        TextAttributes {
            style: TextStyle { bold: false, italics: false },
            foreground: Color::default(),
            background: Color::default(),
        }
    }

    fn apply_single(&mut self, g: &Vec<u16>)
        ensures
            *final(self) == sgr_single(*old(self), g@),
    {
        if is_group(g, 0) {
            *self = TextAttributes::plain();
        } else if is_group(g, 1) {
            self.style.bold = true;
        } else if is_group(g, 3) {
            self.style.italics = true;
        } else if is_group(g, 21) {
            self.style.bold = false;
        } else if is_group(g, 23) {
            self.style.italics = false;
        } else if g.len() == 1 && 30 <= g[0] && g[0] <= 37 {
            self.foreground = Color::Named(named_color_of(g[0] - 30));
        } else if is_group(g, 39) {
            self.foreground = Color::default();
        } else if g.len() == 1 && 40 <= g[0] && g[0] <= 47 {
            self.background = Color::Named(named_color_of(g[0] - 40));
        } else if is_group(g, 49) {
            self.background = Color::default();
        } else if g.len() > 1 && g[0] == 38 {
            if let Some(c) = handle_colon_rgb(&tail_of(g)) {
                self.foreground = c;
            }
        } else if g.len() > 1 && g[0] == 48 {
            if let Some(c) = handle_colon_rgb(&tail_of(g)) {
                self.background = c;
            }
        }
    }

    /// Apply the SGR parameter groups of one sequence, in order.
    pub fn handle_sgr(&mut self, params: &Vec<Vec<u16>>)
        ensures
            *final(self) == sgr_from(*old(self), params@.map_values(|g: Vec<u16>| g@), 0),
    {
        let ghost groups = params@.map_values(|g: Vec<u16>| g@);
        let mut firsts: Vec<u16> = Vec::new();
        let mut k: usize = 0;
        while k < params.len()
            invariant
                k <= params@.len(),
                groups == params@.map_values(|g: Vec<u16>| g@),
                firsts@ == groups.subrange(0, k as int).map_values(|g: Seq<u16>| first_value(g)),
            decreases params@.len() - k,
        {
            let g = &params[k];
            firsts.push(if g.len() > 0 { g[0] } else { 0 });
            k = k + 1;
            assert(firsts@ =~= groups.subrange(0, k as int).map_values(|g: Seq<u16>| first_value(g)));
        }
        let mut i: usize = 0;
        while i < params.len()
            invariant
                i <= params@.len(),
                groups == params@.map_values(|g: Vec<u16>| g@),
                firsts@ == groups.map_values(|g: Seq<u16>| first_value(g)),
                sgr_from(*self, groups, i as int) == sgr_from(*old(self), groups, 0),
            decreases params@.len() - i,
        {
            let g = &params[i];
            if is_group(g, 38) || is_group(g, 48) {
                let (c, taken) = parse_sgr_color(&firsts, i + 1);
                assert(firsts@.subrange(i + 1, firsts@.len() as int) =~= firsts_from(groups, i + 1));
                if let Some(c) = c {
                    if g[0] == 38 {
                        self.foreground = c;
                    } else {
                        self.background = c;
                    }
                }
                i = i + 1 + taken;
            } else {
                self.apply_single(g);
                i = i + 1;
            }
        }
    }
}

/// Parser state for importing an existing sketch: where it started and where
/// the next character goes.
pub struct SketchParser {
    pub origin: Point,
    pub point: Point,
}

impl SketchParser {
    /// Start importing at `origin`.
    pub fn new(origin: Point) -> (p: SketchParser)
        ensures
            p.origin == origin,
            p.point == origin,
    {
        SketchParser { origin, point: origin }
    }

    /// A C0 control byte: a newline moves to the origin's column on the next
    /// line; the others are ignored.
    pub fn execute(&mut self, byte: u8)
        ensures
            final(self).origin == old(self).origin,
            byte == 0x0a && old(self).point.line < usize::MAX ==> final(self).point == (Point {
                column: old(self).origin.column,
                line: (old(self).point.line + 1) as usize,
            }),
            byte == 0x0a && old(self).point.line == usize::MAX ==> final(self).point == (Point {
                column: old(self).origin.column,
                line: usize::MAX,
            }),
            byte != 0x0a ==> final(self).point == old(self).point,
    {
        if byte == 0x0a {
            self.point.column = self.origin.column;
            if self.point.line < usize::MAX {
                self.point.line = self.point.line + 1;
            }
        }
    }

    /// A control sequence: an SGR sequence (`m` without intermediates)
    /// updates `attributes`; with no parameters it resets them to plain text.
    /// Sequences with ignored or more than two intermediates are dropped.
    pub fn csi_dispatch(
        &self,
        attributes: &mut TextAttributes,
        params: &Vec<Vec<u16>>,
        intermediates: &Vec<u8>,
        has_ignored_intermediates: bool,
        action: char,
    )
        ensures
            (has_ignored_intermediates || intermediates@.len() != 0 || action != 'm')
                ==> *final(attributes) == *old(attributes),
            (!has_ignored_intermediates && intermediates@.len() == 0 && action == 'm'
                && params@.len() == 0) ==> *final(attributes) == plain(),
            (!has_ignored_intermediates && intermediates@.len() == 0 && action == 'm'
                && params@.len() > 0) ==> *final(attributes) == sgr_from(
                *old(attributes),
                params@.map_values(|g: Vec<u16>| g@),
                0,
            ),
    {
        if has_ignored_intermediates || intermediates.len() > 2 {
            return;
        }
        if action == 'm' && intermediates.len() == 0 {
            if params.len() == 0 {
                *attributes = TextAttributes::plain();
            } else {
                attributes.handle_sgr(params);
            }
        }
    }
}

} // verus!
