use sketch::terminal::event::{ButtonState, Modifiers, MouseButton, MouseEvent, TerminalEvent};
use sketch::terminal::parser::{csi_event, execute_event, is_lone_escape, print_event};
use vte::{Params, Parser, Perform};

/// Collects the events decoded from a byte stream.
struct Collector(Vec<TerminalEvent>);

impl Perform for Collector {
    fn print(&mut self, c: char) {
        self.0.push(print_event(c));
    }

    fn execute(&mut self, byte: u8) {
        self.0.push(execute_event(byte));
    }

    fn csi_dispatch(&mut self, params: &Params, intermediates: &[u8], _ignore: bool, action: char) {
        let groups: Vec<Vec<u16>> = params.iter().map(|g| g.to_vec()).collect();
        if let Some(event) = csi_event(&groups, &intermediates.to_vec(), action) {
            self.0.push(event);
        }
    }
}

fn decode_in_chunks(bytes: &[u8], chunk: usize) -> Vec<TerminalEvent> {
    let mut parser = Parser::new();
    let mut collector = Collector(Vec::new());
    for part in bytes.chunks(chunk) {
        for byte in part {
            parser.advance(&mut collector, *byte);
        }
    }
    collector.0
}

fn mouse(button: MouseButton, button_state: ButtonState, column: usize, line: usize) -> MouseEvent {
    MouseEvent { button_state, modifiers: Modifiers::empty(), button, column, line }
}

fn groups(values: &[u16]) -> Vec<Vec<u16>> {
    values.iter().map(|v| vec![*v]).collect()
}

#[test]
fn motion_bit_with_left_button_is_down() {
    let e = MouseEvent::new(32, 5, 7, 'M');
    assert_eq!(e, mouse(MouseButton::Left, ButtonState::Down, 5, 7));
}

#[test]
fn reserved_code_is_no_button() {
    assert_eq!(MouseEvent::new(3, 1, 1, 'M'), mouse(MouseButton::NoButton, ButtonState::Up, 1, 1));
    assert_eq!(MouseEvent::new(35, 1, 1, 'M'), mouse(MouseButton::NoButton, ButtonState::Up, 1, 1));
    assert_eq!(
        MouseEvent::new(3, 1, 1, 'm'),
        mouse(MouseButton::NoButton, ButtonState::Released, 1, 1)
    );
}

#[test]
fn release_forces_released() {
    for code in [0u16, 1, 2, 32, 33, 64, 65, 128] {
        assert_eq!(MouseEvent::new(code, 2, 3, 'm').button_state, ButtonState::Released);
    }
}

#[test]
fn buttons_and_banks() {
    assert_eq!(MouseEvent::new(0, 1, 1, 'M').button, MouseButton::Left);
    assert_eq!(MouseEvent::new(1, 1, 1, 'M').button, MouseButton::Middle);
    assert_eq!(MouseEvent::new(2, 1, 1, 'M').button, MouseButton::Right);
    assert_eq!(MouseEvent::new(64, 1, 1, 'M').button, MouseButton::Index(4));
    assert_eq!(MouseEvent::new(65, 1, 1, 'M').button, MouseButton::Index(5));
    assert_eq!(MouseEvent::new(128, 1, 1, 'M').button, MouseButton::Index(8));
    assert_eq!(MouseEvent::new(130, 1, 1, 'M').button, MouseButton::Index(10));
    assert_eq!(MouseEvent::new(64, 1, 1, 'M').button_state, ButtonState::Pressed);
}

#[test]
fn each_modifier_alone() {
    let shift = MouseEvent::new(4, 1, 1, 'M').modifiers;
    assert_eq!(shift, Modifiers { shift: true, alt: false, control: false });
    let alt = MouseEvent::new(8 + 1, 1, 1, 'M');
    assert_eq!(alt.modifiers, Modifiers { shift: false, alt: true, control: false });
    assert_eq!(alt.button, MouseButton::Middle);
    let control = MouseEvent::new(16 + 2, 1, 1, 'M');
    assert_eq!(control.modifiers, Modifiers { shift: false, alt: false, control: true });
    assert!(control.modifiers.is_control_only());
    assert_eq!(control.button, MouseButton::Right);
    let all = MouseEvent::new(4 + 8 + 16 + 32 + 128 + 1, 9, 4, 'M');
    assert_eq!(all.modifiers, Modifiers { shift: true, alt: true, control: true });
    assert_eq!(all.button, MouseButton::Index(9));
    assert_eq!(all.button_state, ButtonState::Down);
}

#[test]
fn sgr_mouse_sequence_decodes() {
    let r = csi_event(&groups(&[0, 10, 20]), &vec![b'<'], 'M');
    assert_eq!(r, Some(TerminalEvent::Mouse(mouse(MouseButton::Left, ButtonState::Pressed, 10, 20))));
    assert_eq!(csi_event(&groups(&[0, 10]), &vec![b'<'], 'M'), None);
    assert_eq!(csi_event(&groups(&[0, 10, 20]), &vec![], 'M'), None);
}

#[test]
fn focus_and_paste_sequences() {
    assert_eq!(csi_event(&vec![], &vec![], 'I'), Some(TerminalEvent::Focus(true)));
    assert_eq!(csi_event(&vec![], &vec![], 'O'), Some(TerminalEvent::Focus(false)));
    assert_eq!(csi_event(&groups(&[200]), &vec![], '~'), Some(TerminalEvent::BracketedPaste(true)));
    assert_eq!(csi_event(&groups(&[201]), &vec![], '~'), Some(TerminalEvent::BracketedPaste(false)));
    assert_eq!(csi_event(&groups(&[3]), &vec![], '~'), None);
}

#[test]
fn unknown_sequences_are_discarded() {
    assert_eq!(csi_event(&groups(&[1, 2]), &vec![], 'q'), None);
    assert_eq!(csi_event(&groups(&[0, 1, 1]), &vec![b'>'], 'M'), None);
    assert_eq!(csi_event(&vec![], &vec![b'?'], 'I'), None);
    // The next valid sequence after an unknown one still decodes.
    let events = decode_in_chunks(b"\x1b[?1;2$z\x1b[<0;3;4Mx", 64);
    assert_eq!(
        events,
        vec![
            TerminalEvent::Mouse(mouse(MouseButton::Left, ButtonState::Pressed, 3, 4)),
            TerminalEvent::Keyboard('x'),
        ]
    );
}

#[test]
fn control_bytes_and_characters() {
    assert_eq!(execute_event(4), TerminalEvent::Keyboard('\x04'));
    assert_eq!(execute_event(0x7f), TerminalEvent::Keyboard('\x7f'));
    assert_eq!(execute_event(0x01), TerminalEvent::Keyboard('\x01'));
    assert_eq!(print_event('é'), TerminalEvent::Keyboard('é'));
    assert!(is_lone_escape(b"\x1b"));
    assert!(!is_lone_escape(b"\x1b["));
    assert!(!is_lone_escape(b""));
}

#[test]
fn decoding_is_independent_of_chunking() {
    let input: &[u8] = b"a\x1b[<32;5;6M\x1b[I\x1b[200~p\xc3\xa9\x1b[201~\x1b[O\x1b[<0;1;1m\x03\x1b[?9q";
    let whole = decode_in_chunks(input, input.len());
    assert_eq!(whole, decode_in_chunks(input, 1));
    assert_eq!(whole, decode_in_chunks(input, 3));
    assert_eq!(whole, decode_in_chunks(input, input.len()));
    assert_eq!(
        whole,
        vec![
            TerminalEvent::Keyboard('a'),
            TerminalEvent::Mouse(mouse(MouseButton::Left, ButtonState::Down, 5, 6)),
            TerminalEvent::Focus(true),
            TerminalEvent::BracketedPaste(true),
            TerminalEvent::Keyboard('p'),
            TerminalEvent::Keyboard('é'),
            TerminalEvent::BracketedPaste(false),
            TerminalEvent::Focus(false),
            TerminalEvent::Mouse(mouse(MouseButton::Left, ButtonState::Released, 1, 1)),
            TerminalEvent::Keyboard('\x03'),
        ]
    );
}
