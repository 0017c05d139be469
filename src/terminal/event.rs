//! Events decoded from the terminal's input stream.
use vstd::prelude::*;

use crate::terminal::Dimensions;

verus! {

/// Mouse cursor button state.
#[derive(Copy, Clone, Debug, PartialEq, Eq, Structural)]
pub enum ButtonState {
    /// Button was just pressed.
    Pressed,
    /// Cursor motion while a button is held down.
    Down,
    /// Button was just released.
    Released,
    /// Cursor motion without any buttons held down.
    Up,
}

/// Mouse buttons.
#[derive(Copy, Clone, Debug, PartialEq, Eq, Structural)]
pub enum MouseButton {
    Left,
    Middle,
    Right,
    /// No mouse button pressed: the cursor has moved without any button held.
    NoButton,
    /// Mouse buttons beyond Left/Middle/Right.
    ///
    /// Buttons 4 and 5 are the scroll wheel; 8 to 11 are extra buttons.
    Index(u8),
}

/// Keyboard modifiers held during a mouse event.
#[derive(Copy, Clone, Debug, PartialEq, Eq, Structural)]
pub struct Modifiers {
    pub shift: bool,
    pub alt: bool,
    pub control: bool,
}

impl Modifiers {
    /// No modifier held.
    pub fn empty() -> (m: Modifiers)
        ensures
            !m.shift && !m.alt && !m.control,
    {
        Modifiers { shift: false, alt: false, control: false }
    }

    /// Whether exactly Control is held.
    pub fn is_control_only(&self) -> (r: bool)
        ensures
            r == (self.control && !self.shift && !self.alt),
    {
        self.control && !self.shift && !self.alt
    }
}

/// Mouse cursor event.
#[derive(Copy, Clone, Debug, PartialEq, Eq, Structural)]
pub struct MouseEvent {
    pub button_state: ButtonState,
    pub modifiers: Modifiers,
    pub button: MouseButton,
    pub column: usize,
    pub line: usize,
}

/// Bit `k` (2 to 7) of the low byte of an SGR button code.
pub open spec fn code_bit(code: nat, k: nat) -> bool {
    let b = code % 256;
    if k == 2 {
        b / 4 % 2 == 1
    } else if k == 3 {
        b / 8 % 2 == 1
    } else if k == 4 {
        b / 16 % 2 == 1
    } else if k == 5 {
        b / 32 % 2 == 1
    } else if k == 6 {
        b / 64 % 2 == 1
    } else if k == 7 {
        b / 128 % 2 == 1
    } else {
        false
    }
}

/// The two low bits of an SGR button code: the button within its bank.
pub open spec fn code_button_index(code: nat) -> nat {
    code % 4
}

/// State encoded by an SGR button code and the final byte of its report.
///
/// `m` reports a release whatever the code holds. Otherwise the reserved
/// button index 3 reports motion with no button held, bit 5 motion with a
/// button held, and anything else a press.
pub open spec fn decoded_state(code: nat, action: char) -> ButtonState {
    if action == 'm' {
        ButtonState::Released
    } else if code_button_index(code) == 3 {
        ButtonState::Up
    } else if code_bit(code, 5) {
        ButtonState::Down
    } else {
        ButtonState::Pressed
    }
}

/// Button encoded by an SGR button code: bits 0 and 1 pick the button, bit 6
/// moves it to the bank starting at button 4 and bit 7 to the bank at 8.
pub open spec fn decoded_button(code: nat) -> MouseButton {
    let i = code_button_index(code);
    if code_bit(code, 6) {
        MouseButton::Index((4 + i) as u8)
    } else if code_bit(code, 7) {
        MouseButton::Index((8 + i) as u8)
    } else if i == 0 {
        MouseButton::Left
    } else if i == 1 {
        MouseButton::Middle
    } else if i == 2 {
        MouseButton::Right
    } else {
        MouseButton::NoButton
    }
}

/// Modifiers encoded by an SGR button code: bits 2, 3 and 4.
pub open spec fn decoded_modifiers(code: nat) -> Modifiers {
    Modifiers { shift: code_bit(code, 2), alt: code_bit(code, 3), control: code_bit(code, 4) }
}

/// The event that an SGR mouse report with these parameters stands for.
pub open spec fn decoded_mouse(button: nat, column: nat, line: nat, action: char) -> MouseEvent {
    MouseEvent {
        button_state: decoded_state(button, action),
        modifiers: decoded_modifiers(button),
        button: decoded_button(button),
        column: column as usize,
        line: line as usize,
    }
}

impl MouseEvent {
    /// Create a new mouse event from the parameters of an SGR mouse report.
    ///
    /// `action` is the report's final byte: `M` for a press or motion, `m`
    /// for a release.
    pub fn new(button: u16, column: u16, line: u16, action: char) -> (e: MouseEvent)
        ensures
            e == decoded_mouse(button as nat, column as nat, line as nat, action),
    {
        let code: u16 = button % 256;
        let index: u16 = code % 4;
        let button_state = if action == 'm' {
            ButtonState::Released
        } else if index == 3 {
            ButtonState::Up
        } else if code / 32 % 2 == 1 {
            ButtonState::Down
        } else {
            ButtonState::Pressed
        };
        let modifiers = Modifiers { shift: code / 4 % 2 == 1, alt: code / 8 % 2 == 1, control: code / 16 % 2 == 1 };
        let button = if code / 64 % 2 == 1 {
            MouseButton::Index((4 + index) as u8)
        } else if code / 128 % 2 == 1 {
            MouseButton::Index((8 + index) as u8)
        } else if index == 0 {
            MouseButton::Left
        } else if index == 1 {
            MouseButton::Middle
        } else if index == 2 {
            MouseButton::Right
        } else {
            MouseButton::NoButton
        };
        MouseEvent { button_state, modifiers, button, column: column as usize, line: line as usize }
    }
}

/// The SGR button code bits that identify `b`.
pub open spec fn button_code(b: MouseButton) -> nat {
    match b {
        MouseButton::Left => 0,
        MouseButton::Middle => 1,
        MouseButton::Right => 2,
        MouseButton::NoButton => 3,
        MouseButton::Index(n) => if n < 8 { (64 + n - 4) as nat } else { (128 + n - 8) as nat },
    }
}

/// The SGR button code that a terminal reports for `e`.
pub open spec fn encoded_code(e: MouseEvent) -> nat {
    button_code(e.button)
        + (if e.modifiers.shift { 4nat } else { 0nat })
        + (if e.modifiers.alt { 8nat } else { 0nat })
        + (if e.modifiers.control { 16nat } else { 0nat })
        + (if e.button_state == ButtonState::Down { 32nat } else { 0nat })
}

/// The final byte that a terminal reports for `e`.
pub open spec fn encoded_action(e: MouseEvent) -> char {
    if e.button_state == ButtonState::Released { 'm' } else { 'M' }
}

/// Whether a terminal can report `e` in the SGR protocol: extra buttons are
/// 4 to 11, coordinates fit the report, and the reserved button index 3
/// stands for motion without a button, except in a release.
pub open spec fn reportable(e: MouseEvent) -> bool {
    &&& match e.button {
        MouseButton::Index(n) => 4 <= n <= 11,
        _ => true,
    }
    &&& e.column < 0x10000
    &&& e.line < 0x10000
    &&& e.button_state != ButtonState::Released ==> (
        (e.button_state == ButtonState::Up) == (button_code(e.button) % 4 == 3))
}

proof fn lemma_code_fields(b: nat, s: nat, a: nat, c: nat, dn: nat)
    requires
        b < 4 || 64 <= b < 68 || 128 <= b < 132,
        s < 2 && a < 2 && c < 2 && dn < 2,
    ensures
        ({
            let code = b + 4 * s + 8 * a + 16 * c + 32 * dn;
            &&& code < 256
            &&& code % 256 == code
            &&& code % 4 == b % 4
            &&& code / 4 % 2 == s
            &&& code / 8 % 2 == a
            &&& code / 16 % 2 == c
            &&& code / 32 % 2 == dn
            &&& code / 64 % 2 == (if 64 <= b < 128 { 1nat } else { 0nat })
            &&& code / 128 % 2 == (if 128 <= b { 1nat } else { 0nat })
        }),
{
    let q = 4 * s + 8 * a + 16 * c + 32 * dn;
    assert(q < 64);
    assert(q % 4 == 0);
    if b < 4 {
        assert(b + q < 64);
    } else if b < 68 {
        assert(b + q - 64 < 64);
    } else {
        assert(b + q - 128 < 64);
    }
}

/// Decoding the report of any reportable mouse event gives back that event:
/// its button, its state and each of its modifiers.
pub proof fn lemma_mouse_round_trip(e: MouseEvent)
    requires
        reportable(e),
    ensures
        encoded_code(e) < 256,
        decoded_mouse(encoded_code(e), e.column as nat, e.line as nat, encoded_action(e)) == e,
{
    let code = encoded_code(e);
    let d = decoded_mouse(code, e.column as nat, e.line as nat, encoded_action(e));
    let b = button_code(e.button);
    let s: nat = if e.modifiers.shift { 1 } else { 0 };
    let a: nat = if e.modifiers.alt { 1 } else { 0 };
    let c: nat = if e.modifiers.control { 1 } else { 0 };
    let dn: nat = if e.button_state == ButtonState::Down { 1 } else { 0 };
    lemma_code_fields(b, s, a, c, dn);
    assert(code == b + 4 * s + 8 * a + 16 * c + 32 * dn);
    assert(d.modifiers == e.modifiers);
    assert(d.button == e.button);
    assert(d.button_state == e.button_state);
}

/// A decoded terminal event, in the order in which the handler receives it.
#[derive(Copy, Clone, Debug, PartialEq, Eq, Structural)]
pub enum TerminalEvent {
    /// Mouse cursor clicks and motion.
    Mouse(MouseEvent),
    /// A keyboard character, control characters included.
    Keyboard(char),
    /// The terminal's columns or lines have changed.
    Resize(Dimensions),
    /// The application state should be rendered again.
    Redraw,
    /// The terminal's focus has changed.
    Focus(bool),
    /// Start (`true`) or end (`false`) of a bracketed paste.
    BracketedPaste(bool),
    /// A request to shut the application down.
    Shutdown,
}

} // verus!
