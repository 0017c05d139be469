//! Terminal state: presentation modes, output sequences and signal reactions.
use vstd::prelude::*;

use crate::terminal::event::TerminalEvent;
use crate::text::{decimal, push_char, push_decimal};

pub mod event;
pub mod parser;

verus! {

/// Terminal size in columns and lines.
#[derive(Copy, Clone, Debug, PartialEq, Eq, Structural)]
pub struct Dimensions {
    pub columns: u16,
    pub lines: u16,
}

impl Default for Dimensions {
    fn default() -> (d: Dimensions)
        ensures
            d.columns == 0 && d.lines == 0,
    {
        Dimensions { columns: 0, lines: 0 }
    }
}

/// Terminal presentation modes, set and reset with `CSI ? <n> h` / `CSI ? <n> l`.
#[derive(Copy, Clone, Debug, PartialEq, Eq, Structural)]
pub enum TerminalMode {
    LineWrap,
    ShowCursor,
    SgrMouse,
    MouseMotion,
    FocusInOut,
    BracketedPaste,
    AltScreen,
}

/// The private-mode number of `m`.
pub open spec fn mode_number(m: TerminalMode) -> nat {
    match m {
        TerminalMode::LineWrap => 7,
        TerminalMode::ShowCursor => 25,
        TerminalMode::SgrMouse => 1006,
        TerminalMode::MouseMotion => 1003,
        TerminalMode::FocusInOut => 1004,
        TerminalMode::BracketedPaste => 2004,
        TerminalMode::AltScreen => 1049,
    }
}

/// The value a terminal starts with: line wrap and a visible cursor, nothing else.
pub open spec fn default_mode_value(m: TerminalMode) -> bool {
    m == TerminalMode::LineWrap || m == TerminalMode::ShowCursor
}

/// Every tracked mode, in the order in which they are written out.
pub open spec fn all_modes() -> Seq<TerminalMode> {
    seq![
        TerminalMode::LineWrap,
        TerminalMode::ShowCursor,
        TerminalMode::SgrMouse,
        TerminalMode::MouseMotion,
        TerminalMode::FocusInOut,
        TerminalMode::BracketedPaste,
        TerminalMode::AltScreen,
    ]
}

/// The terminal default of every mode.
pub open spec fn default_modes() -> Map<TerminalMode, bool> {
    Map::new(|m: TerminalMode| true, |m: TerminalMode| default_mode_value(m))
}

/// `ESC [ ?`, the start of a private-mode sequence.
pub open spec fn private_mode_prefix() -> Seq<char> {
    seq!['\x1b', '[', '?']
}

/// The sequence that sets (`h`) or resets (`l`) mode `m`.
#[verifier::opaque]
pub open spec fn mode_sequence(m: TerminalMode, enabled: bool) -> Seq<char> {
    private_mode_prefix() + decimal(mode_number(m)) + seq![if enabled { 'h' } else { 'l' }]
}

/// The sequences that carry out `writes`, in order.
pub open spec fn modes_sequence(writes: Seq<(TerminalMode, bool)>) -> Seq<char>
    decreases writes.len(),
{
    if writes.len() == 0 {
        Seq::empty()
    } else {
        modes_sequence(writes.drop_last()) + mode_sequence(writes.last().0, writes.last().1)
    }
}

/// The writes, one per tracked mode and in output order, that set each mode
/// to its value in `values`.
pub open spec fn mode_writes(values: Map<TerminalMode, bool>) -> Seq<(TerminalMode, bool)> {
    all_modes().map_values(|m: TerminalMode| (m, values[m]))
}

/// The sequences that write out every tracked mode with its value in `values`.
pub open spec fn all_modes_sequence(values: Map<TerminalMode, bool>) -> Seq<char> {
    modes_sequence(mode_writes(values))
}

impl TerminalMode {
    /// The private-mode number of this mode.
    pub fn number(self) -> (n: u16)
        ensures
            n == mode_number(self),
    {
        match self {
            TerminalMode::LineWrap => 7,
            TerminalMode::ShowCursor => 25,
            TerminalMode::SgrMouse => 1006,
            TerminalMode::MouseMotion => 1003,
            TerminalMode::FocusInOut => 1004,
            TerminalMode::BracketedPaste => 2004,
            TerminalMode::AltScreen => 1049,
        }
    }

    /// The escape sequence that sets (`enabled`) or resets this mode.
    pub fn sequence(self, enabled: bool) -> (s: String)
        ensures
            s@ == mode_sequence(self, enabled),
    {
        let mut s = String::new();
        push_mode_sequence(&mut s, self, enabled);
        s
    }
}

fn push_mode_sequence(s: &mut String, mode: TerminalMode, enabled: bool)
    ensures
        final(s)@ == old(s)@ + mode_sequence(mode, enabled),
{
    push_char(s, '\x1b');
    push_char(s, '[');
    push_char(s, '?');
    push_decimal(s, mode.number() as u64);
    push_char(s, if enabled { 'h' } else { 'l' });
    reveal(mode_sequence);
    assert(final(s)@ =~= old(s)@ + mode_sequence(mode, enabled));
}

/// The last value written for each terminal mode.
#[derive(Copy, Clone, Debug, PartialEq, Eq, Structural)]
pub struct TerminalModes {
    line_wrap: bool,
    show_cursor: bool,
    sgr_mouse: bool,
    mouse_motion: bool,
    focus_in_out: bool,
    bracketed_paste: bool,
    alt_screen: bool,
}

impl TerminalModes {
    /// The value held for `m`.
    pub closed spec fn value(&self, m: TerminalMode) -> bool {
        match m {
            TerminalMode::LineWrap => self.line_wrap,
            TerminalMode::ShowCursor => self.show_cursor,
            TerminalMode::SgrMouse => self.sgr_mouse,
            TerminalMode::MouseMotion => self.mouse_motion,
            TerminalMode::FocusInOut => self.focus_in_out,
            TerminalMode::BracketedPaste => self.bracketed_paste,
            TerminalMode::AltScreen => self.alt_screen,
        }
    }
}

impl View for TerminalModes {
    type V = Map<TerminalMode, bool>;

    /// A value for every mode: the map is never partial.
    open spec fn view(&self) -> Map<TerminalMode, bool> {
        Map::new(|m: TerminalMode| true, |m: TerminalMode| self.value(m))
    }
}

impl Default for TerminalModes {
    /// The terminal defaults: line wrap and a visible cursor, nothing else.
    fn default() -> (r: TerminalModes)
        ensures
            r@ == default_modes(),
    {
        let r = TerminalModes {
            line_wrap: true,
            show_cursor: true,
            sgr_mouse: false,
            mouse_motion: false,
            focus_in_out: false,
            bracketed_paste: false,
            alt_screen: false,
        };
        assert(r@ =~= default_modes());
        r
    }
}

impl TerminalModes {
    /// The value held for `mode`.
    pub fn get(&self, mode: TerminalMode) -> (r: bool)
        ensures
            r == self@[mode],
    {
        match mode {
            TerminalMode::LineWrap => self.line_wrap,
            TerminalMode::ShowCursor => self.show_cursor,
            TerminalMode::SgrMouse => self.sgr_mouse,
            TerminalMode::MouseMotion => self.mouse_motion,
            TerminalMode::FocusInOut => self.focus_in_out,
            TerminalMode::BracketedPaste => self.bracketed_paste,
            TerminalMode::AltScreen => self.alt_screen,
        }
    }

    /// Record `enabled` as the value of `mode`.
    pub fn insert(&mut self, mode: TerminalMode, enabled: bool)
        ensures
            final(self)@ == old(self)@.insert(mode, enabled),
    {
        match mode {
            TerminalMode::LineWrap => self.line_wrap = enabled,
            TerminalMode::ShowCursor => self.show_cursor = enabled,
            TerminalMode::SgrMouse => self.sgr_mouse = enabled,
            TerminalMode::MouseMotion => self.mouse_motion = enabled,
            TerminalMode::FocusInOut => self.focus_in_out = enabled,
            TerminalMode::BracketedPaste => self.bracketed_paste = enabled,
            TerminalMode::AltScreen => self.alt_screen = enabled,
        }
        assert(final(self)@ =~= old(self)@.insert(mode, enabled));
    }

    /// The sequences that write every mode out with its held value.
    pub fn sequence(&self) -> (s: String)
        ensures
            s@ == all_modes_sequence(self@),
    {
        let mut s = String::new();
        push_all_modes(&mut s, self);
        s
    }
}

fn push_all_modes(s: &mut String, modes: &TerminalModes)
    ensures
        final(s)@ == old(s)@ + all_modes_sequence(modes@),
{
    let ghost start = s@;
    let ghost v = modes@;
    proof {
        lemma_all_modes_sequence(v);
    }
    push_mode_sequence(s, TerminalMode::LineWrap, modes.get(TerminalMode::LineWrap));
    push_mode_sequence(s, TerminalMode::ShowCursor, modes.get(TerminalMode::ShowCursor));
    push_mode_sequence(s, TerminalMode::SgrMouse, modes.get(TerminalMode::SgrMouse));
    push_mode_sequence(s, TerminalMode::MouseMotion, modes.get(TerminalMode::MouseMotion));
    push_mode_sequence(s, TerminalMode::FocusInOut, modes.get(TerminalMode::FocusInOut));
    push_mode_sequence(s, TerminalMode::BracketedPaste, modes.get(TerminalMode::BracketedPaste));
    push_mode_sequence(s, TerminalMode::AltScreen, modes.get(TerminalMode::AltScreen));
    assert(s@ =~= start + all_modes_sequence(v));
}

/// The prefixes of the seven mode writes, as the recursive spec functions
/// take them apart from the end.
proof fn lemma_mode_writes_prefixes(v: Map<TerminalMode, bool>)
    ensures
        ({
            let w = mode_writes(v);
            &&& w.len() == 7
            &&& w.drop_last() == w.subrange(0, 6)
            &&& w.drop_last().drop_last() == w.subrange(0, 5)
            &&& w.drop_last().drop_last().drop_last() == w.subrange(0, 4)
            &&& w.drop_last().drop_last().drop_last().drop_last() == w.subrange(0, 3)
            &&& w.drop_last().drop_last().drop_last().drop_last().drop_last() == w.subrange(0, 2)
            &&& w.drop_last().drop_last().drop_last().drop_last().drop_last().drop_last()
                == w.subrange(0, 1)
            &&& w.subrange(0, 1).drop_last() == Seq::<(TerminalMode, bool)>::empty()
        }),
{
    let w = mode_writes(v);
    assert(w.drop_last() =~= w.subrange(0, 6));
    assert(w.drop_last().drop_last() =~= w.subrange(0, 5));
    assert(w.drop_last().drop_last().drop_last() =~= w.subrange(0, 4));
    assert(w.drop_last().drop_last().drop_last().drop_last() =~= w.subrange(0, 3));
    assert(w.drop_last().drop_last().drop_last().drop_last().drop_last() =~= w.subrange(0, 2));
    assert(w.drop_last().drop_last().drop_last().drop_last().drop_last().drop_last()
        =~= w.subrange(0, 1));
    assert(w.subrange(0, 1).drop_last() =~= Seq::<(TerminalMode, bool)>::empty());
}

/// `all_modes_sequence` written out mode by mode.
proof fn lemma_all_modes_sequence(v: Map<TerminalMode, bool>)
    ensures
        all_modes_sequence(v) == Seq::<char>::empty()
            + mode_sequence(TerminalMode::LineWrap, v[TerminalMode::LineWrap])
            + mode_sequence(TerminalMode::ShowCursor, v[TerminalMode::ShowCursor])
            + mode_sequence(TerminalMode::SgrMouse, v[TerminalMode::SgrMouse])
            + mode_sequence(TerminalMode::MouseMotion, v[TerminalMode::MouseMotion])
            + mode_sequence(TerminalMode::FocusInOut, v[TerminalMode::FocusInOut])
            + mode_sequence(TerminalMode::BracketedPaste, v[TerminalMode::BracketedPaste])
            + mode_sequence(TerminalMode::AltScreen, v[TerminalMode::AltScreen]),
{
    let w = mode_writes(v);
    reveal_with_fuel(modes_sequence, 8);
    lemma_mode_writes_prefixes(v);
}

/// Terminal cursor shape.
#[derive(Copy, Clone, Debug, PartialEq, Eq, Structural)]
pub enum CursorShape {
    Default,
    Underline,
    IBeam,
}

/// The DECSCUSR number of a cursor shape.
pub open spec fn cursor_shape_number(shape: CursorShape) -> nat {
    match shape {
        CursorShape::Default => 0,
        CursorShape::Underline => 4,
        CursorShape::IBeam => 6,
    }
}

/// `ESC [`, the control sequence introducer.
pub open spec fn csi() -> Seq<char> {
    seq!['\x1b', '[']
}

/// `CSI <n> SP q`: select the cursor shape.
pub open spec fn cursor_shape_sequence(shape: CursorShape) -> Seq<char> {
    csi() + decimal(cursor_shape_number(shape)) + seq![' ', 'q']
}

/// `CSI <line> ; <column> H`: move the cursor, both 1-based.
pub open spec fn goto_sequence(column: nat, line: nat) -> Seq<char> {
    csi() + decimal(line) + seq![';'] + decimal(column) + seq!['H']
}

/// `CSI <count> b`: repeat the last character.
pub open spec fn repeat_sequence(count: nat) -> Seq<char> {
    csi() + decimal(count) + seq!['b']
}

/// `CSI <n> m` with a single SGR parameter.
pub open spec fn sgr_sequence(n: nat) -> Seq<char> {
    csi() + decimal(n) + seq!['m']
}

fn push_csi(s: &mut String)
    ensures
        final(s)@ == old(s)@ + csi(),
{
    push_char(s, '\x1b');
    push_char(s, '[');
    assert(final(s)@ =~= old(s)@ + csi());
}

/// The sequence that selects `shape`.
pub fn cursor_shape_escape(shape: CursorShape) -> (s: String)
    ensures
        s@ == cursor_shape_sequence(shape),
{
    let mut s = String::new();
    push_cursor_shape(&mut s, shape);
    s
}

fn push_cursor_shape(s: &mut String, shape: CursorShape)
    ensures
        final(s)@ == old(s)@ + cursor_shape_sequence(shape),
{
    let n: u64 = match shape {
        CursorShape::Default => 0,
        CursorShape::Underline => 4,
        CursorShape::IBeam => 6,
    };
    push_csi(s);
    push_decimal(s, n);
    push_char(s, ' ');
    push_char(s, 'q');
    assert(final(s)@ =~= old(s)@ + cursor_shape_sequence(shape));
}

/// The sequence that moves the cursor to `column` and `line`, both 1-based.
pub fn goto_escape(column: usize, line: usize) -> (s: String)
    ensures
        s@ == goto_sequence(column as nat, line as nat),
{
    let mut s = String::new();
    push_csi(&mut s);
    push_decimal(&mut s, line as u64);
    push_char(&mut s, ';');
    push_decimal(&mut s, column as u64);
    push_char(&mut s, 'H');
    assert(s@ =~= goto_sequence(column as nat, line as nat));
    s
}

/// The sequence that repeats the last character `count` times.
pub fn repeat_escape(count: usize) -> (s: String)
    ensures
        s@ == repeat_sequence(count as nat),
{
    let mut s = String::new();
    push_csi(&mut s);
    push_decimal(&mut s, count as u64);
    push_char(&mut s, 'b');
    assert(s@ =~= repeat_sequence(count as nat));
    s
}

/// The sequence with the single SGR parameter `n`: `0` resets all text
/// attributes, `2` dims the following characters.
pub fn sgr_escape(n: u8) -> (s: String)
    ensures
        s@ == sgr_sequence(n as nat),
{
    let mut s = String::new();
    push_csi(&mut s);
    push_decimal(&mut s, n as u64);
    push_char(&mut s, 'm');
    assert(s@ =~= sgr_sequence(n as nat));
    s
}

/// `CSI 2 J`: clear the screen.
pub open spec fn clear_sequence() -> Seq<char> {
    csi() + seq!['2', 'J']
}

/// The sequence that clears the screen.
pub fn clear_escape() -> (s: String)
    ensures
        s@ == clear_sequence(),
{
    let mut s = String::new();
    push_csi(&mut s);
    push_char(&mut s, '2');
    push_char(&mut s, 'J');
    assert(s@ =~= clear_sequence());
    s
}

/// CTerm color.
#[derive(Copy, Clone, Debug, PartialEq, Eq, Structural)]
pub enum NamedColor {
    Black,
    Red,
    Green,
    Yellow,
    Blue,
    Magenta,
    Cyan,
    White,
    Default,
}

/// The CTerm number of a named color: `3<n>` selects it as foreground and
/// `4<n>` as background.
pub open spec fn named_color_number(c: NamedColor) -> nat {
    match c {
        NamedColor::Black => 0,
        NamedColor::Red => 1,
        NamedColor::Green => 2,
        NamedColor::Yellow => 3,
        NamedColor::Blue => 4,
        NamedColor::Magenta => 5,
        NamedColor::Cyan => 6,
        NamedColor::White => 7,
        NamedColor::Default => 9,
    }
}

impl NamedColor {
    /// The CTerm number of this color.
    pub fn number(self) -> (n: u8)
        ensures
            n == named_color_number(self),
    {
        match self {
            NamedColor::Black => 0,
            NamedColor::Red => 1,
            NamedColor::Green => 2,
            NamedColor::Yellow => 3,
            NamedColor::Blue => 4,
            NamedColor::Magenta => 5,
            NamedColor::Cyan => 6,
            NamedColor::White => 7,
            NamedColor::Default => 9,
        }
    }
}

/// RGB color.
#[derive(Copy, Clone, Debug, PartialEq, Eq, Structural)]
pub struct Rgb {
    pub r: u8,
    pub g: u8,
    pub b: u8,
}

/// Terminal color.
#[derive(Copy, Clone, Debug, PartialEq, Eq, Structural)]
pub enum Color {
    Named(NamedColor),
    Indexed(u8),
    Rgb(Rgb),
}

impl Default for Color {
    /// The terminal's default color.
    fn default() -> (c: Color)
        ensures
            c == Color::Named(NamedColor::Default),
    {
        Color::Named(NamedColor::Default)
    }
}

/// The SGR sequence that selects `c` as foreground or background color.
pub open spec fn color_sequence(c: Color, foreground: bool) -> Seq<char> {
    match c {
        Color::Named(n) => csi() + seq![if foreground { '3' } else { '4' }] + decimal(
            named_color_number(n),
        ) + seq!['m'],
        Color::Indexed(i) => csi() + seq![if foreground { '3' } else { '4' }, '8', ':', '5', ':']
            + decimal(i as nat) + seq!['m'],
        Color::Rgb(rgb) => csi() + seq![if foreground { '3' } else { '4' }, '8', ':', '2', ':']
            + decimal(rgb.r as nat) + seq![':'] + decimal(rgb.g as nat) + seq![':'] + decimal(
            rgb.b as nat,
        ) + seq!['m'],
    }
}

impl Color {
    /// The SGR sequence that selects this color as foreground (`true`) or
    /// background color.
    pub fn escape(&self, foreground: bool) -> (s: String)
        ensures
            s@ == color_sequence(*self, foreground),
    {
        let mut s = String::new();
        push_color(&mut s, *self, foreground);
        s
    }
}

fn push_color(s: &mut String, c: Color, foreground: bool)
    ensures
        final(s)@ == old(s)@ + color_sequence(c, foreground),
{
    push_csi(s);
    push_char(s, if foreground { '3' } else { '4' });
    match c {
        Color::Named(n) => {
            push_decimal(s, n.number() as u64);
        },
        Color::Indexed(i) => {
            push_char(s, '8');
            push_char(s, ':');
            push_char(s, '5');
            push_char(s, ':');
            push_decimal(s, i as u64);
        },
        Color::Rgb(rgb) => {
            push_char(s, '8');
            push_char(s, ':');
            push_char(s, '2');
            push_char(s, ':');
            push_decimal(s, rgb.r as u64);
            push_char(s, ':');
            push_decimal(s, rgb.g as u64);
            push_char(s, ':');
            push_decimal(s, rgb.b as u64);
        },
    }
    push_char(s, 'm');
    assert(final(s)@ =~= old(s)@ + color_sequence(c, foreground));
}

/// The sequences that select `foreground` and `background` for all
/// following characters.
pub fn color_escape(foreground: Color, background: Color) -> (s: String)
    ensures
        s@ == color_sequence(foreground, true) + color_sequence(background, false),
{
    let mut s = String::new();
    push_color(&mut s, foreground, true);
    push_color(&mut s, background, false);
    assert(s@ =~= color_sequence(foreground, true) + color_sequence(background, false));
    s
}


/// The mode values a terminal holds after it received `writes`, starting from
/// `state`: the last write to a mode decides it.
pub open spec fn apply_writes(state: Map<TerminalMode, bool>, writes: Seq<(TerminalMode, bool)>) -> Map<
    TerminalMode,
    bool,
>
    decreases writes.len(),
{
    if writes.len() == 0 {
        state
    } else {
        apply_writes(state, writes.drop_last()).insert(writes.last().0, writes.last().1)
    }
}

/// Whether `values` holds a value for every mode.
pub open spec fn total(values: Map<TerminalMode, bool>) -> bool {
    forall|m: TerminalMode| values.contains_key(m)
}

/// Writing out every mode with its value in `values` leaves the terminal
/// holding exactly `values`, whatever it held before.
pub proof fn lemma_replay_sets_all(state: Map<TerminalMode, bool>, values: Map<TerminalMode, bool>)
    requires
        total(state),
        total(values),
    ensures
        apply_writes(state, mode_writes(values)) == values,
{
    let w = mode_writes(values);
    reveal_with_fuel(apply_writes, 8);
    lemma_mode_writes_prefixes(values);
    let r = apply_writes(state, w);
    assert forall|m: TerminalMode| #[trigger] r.contains_key(m) && r[m] == values[m] by {
        match m {
            TerminalMode::LineWrap => {},
            TerminalMode::ShowCursor => {},
            TerminalMode::SgrMouse => {},
            TerminalMode::MouseMotion => {},
            TerminalMode::FocusInOut => {},
            TerminalMode::BracketedPaste => {},
            TerminalMode::AltScreen => {},
        }
    }
    assert(r =~= values);
}

/// Whatever modes were set before, the teardown writes leave every mode at
/// its terminal default: line wrap and a visible cursor on, everything else
/// off.
pub proof fn lemma_reset_restores_defaults(
    state: Map<TerminalMode, bool>,
    set_calls: Seq<(TerminalMode, bool)>,
)
    requires
        total(state),
    ensures
        apply_writes(apply_writes(state, set_calls), mode_writes(default_modes())) == default_modes(),
        default_modes()[TerminalMode::LineWrap],
        default_modes()[TerminalMode::ShowCursor],
        !default_modes()[TerminalMode::SgrMouse],
        !default_modes()[TerminalMode::MouseMotion],
        !default_modes()[TerminalMode::FocusInOut],
        !default_modes()[TerminalMode::BracketedPaste],
        !default_modes()[TerminalMode::AltScreen],
{
    lemma_apply_total(state, set_calls);
    lemma_replay_sets_all(apply_writes(state, set_calls), default_modes());
}

proof fn lemma_apply_total(state: Map<TerminalMode, bool>, writes: Seq<(TerminalMode, bool)>)
    requires
        total(state),
    ensures
        total(apply_writes(state, writes)),
    decreases writes.len(),
{
    if writes.len() > 0 {
        lemma_apply_total(state, writes.drop_last());
    }
}

/// What the teardown writes: every mode at its default, then the default
/// cursor shape.
pub open spec fn teardown_sequence() -> Seq<char> {
    all_modes_sequence(default_modes()) + cursor_shape_sequence(CursorShape::Default)
}

/// POSIX signals the session reacts to.
#[derive(Copy, Clone, Debug, PartialEq, Eq, Structural)]
pub enum Signal {
    /// `SIGWINCH`: the terminal was resized.
    WindowChange,
    /// `SIGCONT`: resumed after a suspend.
    Continue,
    /// `SIGTSTP`: suspend requested.
    Suspend,
    /// `SIGINT`.
    Interrupt,
    /// `SIGTERM`.
    Terminate,
    /// `SIGHUP`: the controlling terminal is gone.
    Hangup,
}

/// What to do with the terminal's input attributes.
#[derive(Copy, Clone, Debug, PartialEq, Eq, Structural)]
pub enum AttributeChange {
    /// Leave them as they are.
    Keep,
    /// Switch echo and canonical input off again.
    EnterRaw,
    /// Write back the attributes captured at startup.
    Restore,
}

/// What to do with the `SIGTSTP` handler.
#[derive(Copy, Clone, Debug, PartialEq, Eq, Structural)]
pub enum SuspendHandler {
    /// Leave it as it is.
    Keep,
    /// Install it again.
    Install,
    /// Restore the default disposition and raise `SIGTSTP`, so the process
    /// suspends by the default action.
    RemoveAndRaise,
}

/// Errors that end the run loop.
#[derive(Copy, Clone, Debug, PartialEq, Eq, Structural)]
pub enum TerminalError {
    /// The controlling terminal is gone: there is no terminal left to restore.
    BrokenPipe,
}

/// The reaction to one signal, in the order in which it is carried out:
/// write `output`, change the attributes, change the suspend handler, then
/// hand `events` to the event handler.
pub struct SignalAction {
    pub output: String,
    pub attributes: AttributeChange,
    pub suspend_handler: SuspendHandler,
    pub events: Vec<TerminalEvent>,
}

/// `[Resize(now)]` when the dimensions changed, else nothing.
pub open spec fn resize_events(before: Dimensions, now: Dimensions) -> Seq<TerminalEvent> {
    if now != before {
        seq![TerminalEvent::Resize(now)]
    } else {
        Seq::empty()
    }
}

/// The events a signal hands to the event handler, given the dimensions
/// held and those queried now.
pub open spec fn signal_events(signal: Signal, before: Dimensions, now: Dimensions) -> Seq<
    TerminalEvent,
> {
    match signal {
        Signal::WindowChange => resize_events(before, now),
        Signal::Continue => resize_events(before, now).push(TerminalEvent::Redraw),
        Signal::Interrupt | Signal::Terminate => seq![TerminalEvent::Shutdown],
        _ => Seq::empty(),
    }
}

/// The escape sequences a signal writes, given the modes held.
pub open spec fn signal_output(signal: Signal, modes: Map<TerminalMode, bool>) -> Seq<char> {
    match signal {
        Signal::Continue => all_modes_sequence(modes),
        Signal::Suspend => teardown_sequence(),
        _ => Seq::empty(),
    }
}

/// The change to the input attributes a signal asks for.
pub open spec fn signal_attributes(signal: Signal) -> AttributeChange {
    match signal {
        Signal::Continue => AttributeChange::EnterRaw,
        Signal::Suspend => AttributeChange::Restore,
        _ => AttributeChange::Keep,
    }
}

/// The change to the suspend handler a signal asks for.
pub open spec fn signal_suspend_handler(signal: Signal) -> SuspendHandler {
    match signal {
        Signal::Continue => SuspendHandler::Install,
        Signal::Suspend => SuspendHandler::RemoveAndRaise,
        _ => SuspendHandler::Keep,
    }
}

/// Whether raw input is on after a signal, given whether it was on before.
pub open spec fn raw_after_signal(signal: Signal, raw: bool) -> bool {
    match signal {
        Signal::Continue => true,
        Signal::Suspend => false,
        _ => raw,
    }
}

/// The dimensions held after a signal.
pub open spec fn dimensions_after_signal(signal: Signal, before: Dimensions, now: Dimensions) -> Dimensions {
    match signal {
        Signal::WindowChange | Signal::Continue => now,
        _ => before,
    }
}

/// Whether the run loop retries after a failed poll: only an interruption by
/// an unrelated signal is retried; any other failure ends the loop.
pub fn retry_after_poll_error(interrupted: bool) -> (retry: bool)
    ensures
        retry == interrupted,
{
    interrupted
}

/// Terminal session state: what must be restored when the session ends.
pub struct Terminal {
    /// Terminal dimensions in columns/lines.
    dimensions: Dimensions,
    /// The last value written for each mode.
    modes: TerminalModes,
    /// Whether echo and canonical input are switched off.
    raw: bool,
    /// Whether the run loop should stop.
    terminated: bool,
}

impl Terminal {
    /// Terminal dimensions in columns/lines.
    pub closed spec fn dims(&self) -> Dimensions {
        self.dimensions
    }

    /// The last value written for each mode.
    pub closed spec fn modes_view(&self) -> Map<TerminalMode, bool> {
        self.modes@
    }

    /// Whether echo and canonical input are switched off.
    pub closed spec fn raw_spec(&self) -> bool {
        self.raw
    }

    /// Whether the run loop should stop.
    pub closed spec fn terminated_spec(&self) -> bool {
        self.terminated
    }

    /// The session once raw input is on, with the terminal's modes at their
    /// defaults and the given dimensions.
    pub fn new(dimensions: Dimensions) -> (t: Terminal)
        ensures
            t.dims() == dimensions,
            t.modes_view() == default_modes(),
            t.raw_spec(),
            !t.terminated_spec(),
    {
        Terminal { dimensions, modes: TerminalModes::default(), raw: true, terminated: false }
    }

    /// Terminal dimensions in columns/lines.
    pub fn dimensions(&self) -> (d: Dimensions)
        ensures
            d == self.dims(),
    {
        self.dimensions
    }

    /// The last value written for `mode`.
    pub fn mode(&self, mode: TerminalMode) -> (r: bool)
        ensures
            r == self.modes_view()[mode],
    {
        self.modes.get(mode)
    }

    /// Whether echo and canonical input are switched off.
    pub fn is_raw(&self) -> (r: bool)
        ensures
            r == self.raw_spec(),
    {
        self.raw
    }

    /// Whether the run loop should stop.
    pub fn is_terminated(&self) -> (r: bool)
        ensures
            r == self.terminated_spec(),
    {
        self.terminated
    }

    /// Ask the run loop to stop.
    pub fn shutdown(&mut self)
        ensures
            final(self).terminated_spec(),
            final(self).dims() == old(self).dims(),
            final(self).modes_view() == old(self).modes_view(),
            final(self).raw_spec() == old(self).raw_spec(),
    {
        self.terminated = true;
    }

    /// Set a terminal mode: the sequence to write, and the mode recorded.
    pub fn set_mode(&mut self, mode: TerminalMode, enabled: bool) -> (s: String)
        ensures
            s@ == mode_sequence(mode, enabled),
            final(self).modes_view() == old(self).modes_view().insert(mode, enabled),
            final(self).dims() == old(self).dims(),
            final(self).raw_spec() == old(self).raw_spec(),
            final(self).terminated_spec() == old(self).terminated_spec(),
    {
        self.modes.insert(mode, enabled);
        mode.sequence(enabled)
    }

    /// The sequences that write every mode again with its recorded value.
    pub fn restore_modes(&self) -> (s: String)
        ensures
            s@ == all_modes_sequence(self.modes_view()),
    {
        self.modes.sequence()
    }

    /// Undo every terminal modification: the sequences that put every mode
    /// and the cursor shape back to the terminal defaults. The recorded modes
    /// are kept, to be written again on resume; raw input is off afterwards.
    pub fn reset(&mut self) -> (s: String)
        ensures
            s@ == teardown_sequence(),
            !final(self).raw_spec(),
            final(self).modes_view() == old(self).modes_view(),
            final(self).dims() == old(self).dims(),
            final(self).terminated_spec() == old(self).terminated_spec(),
    {
        let defaults = TerminalModes::default();
        let mut s = String::new();
        push_all_modes(&mut s, &defaults);
        push_cursor_shape(&mut s, CursorShape::Default);
        self.raw = false;
        assert(s@ =~= teardown_sequence());
        s
    }

    /// React to a signal. `now` is the terminal size queried after the
    /// signal arrived. `Hangup` is an error: no terminal is left to talk to.
    pub fn handle_signal(&mut self, signal: Signal, now: Dimensions) -> (r: Result<
        SignalAction,
        TerminalError,
    >)
        ensures
            signal == Signal::Hangup ==> r == Err::<SignalAction, TerminalError>(
                TerminalError::BrokenPipe,
            ) && *final(self) == *old(self),
            signal != Signal::Hangup ==> r is Ok && ({
                let a = r->Ok_0;
                &&& a.output@ == signal_output(signal, old(self).modes_view())
                &&& a.attributes == signal_attributes(signal)
                &&& a.suspend_handler == signal_suspend_handler(signal)
                &&& a.events@ == signal_events(signal, old(self).dims(), now)
                &&& final(self).dims() == dimensions_after_signal(
                    signal,
                    old(self).dims(),
                    now,
                )
                &&& final(self).raw_spec() == raw_after_signal(signal, old(self).raw_spec())
                &&& final(self).modes_view() == old(self).modes_view()
                &&& final(self).terminated_spec() == old(self).terminated_spec()
            }),
    {
        match signal {
            Signal::Hangup => Err(TerminalError::BrokenPipe),
            Signal::Interrupt | Signal::Terminate => {
                let mut events = Vec::new();
                events.push(TerminalEvent::Shutdown);
                assert(events@ =~= signal_events(signal, self.dims(), now));
                Ok(
                    SignalAction {
                        output: String::new(),
                        attributes: AttributeChange::Keep,
                        suspend_handler: SuspendHandler::Keep,
                        events,
                    },
                )
            },
            Signal::WindowChange => {
                let events = self.update_size(now);
                Ok(
                    SignalAction {
                        output: String::new(),
                        attributes: AttributeChange::Keep,
                        suspend_handler: SuspendHandler::Keep,
                        events,
                    },
                )
            },
            Signal::Continue => {
                let output = self.restore_modes();
                self.raw = true;
                let mut events = self.update_size(now);
                events.push(TerminalEvent::Redraw);
                Ok(
                    SignalAction {
                        output,
                        attributes: AttributeChange::EnterRaw,
                        suspend_handler: SuspendHandler::Install,
                        events,
                    },
                )
            },
            Signal::Suspend => {
                let output = self.reset();
                Ok(
                    SignalAction {
                        output,
                        attributes: AttributeChange::Restore,
                        suspend_handler: SuspendHandler::RemoveAndRaise,
                        events: Vec::new(),
                    },
                )
            },
        }
    }

    /// Record the dimensions `now`: a resize event when they changed.
    fn update_size(&mut self, now: Dimensions) -> (events: Vec<TerminalEvent>)
        ensures
            events@ == resize_events(old(self).dims(), now),
            final(self).dims() == now,
            final(self).modes_view() == old(self).modes_view(),
            final(self).raw_spec() == old(self).raw_spec(),
            final(self).terminated_spec() == old(self).terminated_spec(),
    {
        let mut events = Vec::new();
        if now != self.dimensions {
            self.dimensions = now;
            events.push(TerminalEvent::Resize(now));
        }
        assert(events@ =~= resize_events(old(self).dims(), now));
        events
    }
}

/// A suspend followed by a resume: the resume writes every mode back with
/// the value it had before the suspend, whatever the terminal was left
/// holding; it requests exactly one redraw, as its last event; and a resize
/// that happened meanwhile is reported first.
pub proof fn lemma_suspend_resume(
    terminal_state: Map<TerminalMode, bool>,
    modes: Map<TerminalMode, bool>,
    raw: bool,
    before: Dimensions,
    now: Dimensions,
)
    requires
        total(terminal_state),
        total(modes),
    ensures
        ({
            let suspended = apply_writes(terminal_state, mode_writes(default_modes()));
            let events = signal_events(Signal::Continue, dimensions_after_signal(Signal::Suspend, before, before), now);
            &&& signal_output(Signal::Suspend, modes) == all_modes_sequence(default_modes())
                + cursor_shape_sequence(CursorShape::Default)
            &&& signal_output(Signal::Continue, modes) == all_modes_sequence(modes)
            &&& apply_writes(suspended, mode_writes(modes)) == modes
            &&& !raw_after_signal(Signal::Suspend, raw)
            &&& raw_after_signal(Signal::Continue, raw_after_signal(Signal::Suspend, raw))
            &&& events.len() > 0
            &&& events.last() == TerminalEvent::Redraw
            &&& forall|i: int| 0 <= i < events.len() - 1 ==> events[i] != TerminalEvent::Redraw
            &&& now != before ==> events[0] == TerminalEvent::Resize(now)
            &&& now == before ==> events.len() == 1
            &&& dimensions_after_signal(Signal::Continue, before, now) == now
        }),
{
    lemma_replay_sets_all(terminal_state, default_modes());
    lemma_replay_sets_all(apply_writes(terminal_state, mode_writes(default_modes())), modes);
}

} // verus!
