use sketch::terminal::event::TerminalEvent;
use sketch::terminal::{
    clear_escape, color_escape, cursor_shape_escape, goto_escape, repeat_escape,
    retry_after_poll_error, sgr_escape, AttributeChange, Color, CursorShape, Dimensions,
    NamedColor, Rgb, Signal, SuspendHandler, Terminal, TerminalError, TerminalMode,
    TerminalModes,
};

const ALL: [TerminalMode; 7] = [
    TerminalMode::LineWrap,
    TerminalMode::ShowCursor,
    TerminalMode::SgrMouse,
    TerminalMode::MouseMotion,
    TerminalMode::FocusInOut,
    TerminalMode::BracketedPaste,
    TerminalMode::AltScreen,
];

const DEFAULTS: &str = "\x1b[?7h\x1b[?25h\x1b[?1006l\x1b[?1003l\x1b[?1004l\x1b[?2004l\x1b[?1049l";

fn dims(columns: u16, lines: u16) -> Dimensions {
    Dimensions { columns, lines }
}

/// The last value written for each mode in a stream of mode sequences.
fn emitted(text: &str) -> Vec<(u16, bool)> {
    let mut out: Vec<(u16, bool)> = Vec::new();
    for part in text.split("\x1b[?").skip(1) {
        let end = part.find(|c| c == 'h' || c == 'l').unwrap();
        let number: u16 = part[..end].parse().unwrap();
        let value = &part[end..end + 1] == "h";
        out.retain(|(n, _)| *n != number);
        out.push((number, value));
    }
    out.sort();
    out
}

#[test]
fn mode_numbers_and_sequences() {
    let numbers: Vec<u16> = ALL.iter().map(|m| m.number()).collect();
    assert_eq!(numbers, vec![7, 25, 1006, 1003, 1004, 2004, 1049]);
    assert_eq!(TerminalMode::SgrMouse.sequence(true), "\x1b[?1006h");
    assert_eq!(TerminalMode::LineWrap.sequence(false), "\x1b[?7l");
}

#[test]
fn default_modes_are_not_all_false() {
    let modes = TerminalModes::default();
    assert!(modes.get(TerminalMode::LineWrap));
    assert!(modes.get(TerminalMode::ShowCursor));
    for mode in &ALL[2..] {
        assert!(!modes.get(*mode));
    }
    assert_eq!(modes.sequence(), DEFAULTS);
}

#[test]
fn reset_after_set_modes_emits_defaults() {
    let mut t = Terminal::new(dims(80, 24));
    let mut written = String::new();
    for (i, mode) in ALL.iter().enumerate() {
        written.push_str(&t.set_mode(*mode, i % 2 == 0));
    }
    written.push_str(&t.set_mode(TerminalMode::ShowCursor, false));
    written.push_str(&t.set_mode(TerminalMode::AltScreen, true));
    let reset = t.reset();
    assert_eq!(reset, format!("{}\x1b[0 q", DEFAULTS));
    written.push_str(&reset);
    assert_eq!(
        emitted(&written),
        vec![(7, true), (25, true), (1003, false), (1004, false), (1006, false), (1049, false), (2004, false)]
    );
    assert!(!t.is_raw());
}

#[test]
fn set_mode_records_value() {
    let mut t = Terminal::new(dims(80, 24));
    assert_eq!(t.set_mode(TerminalMode::MouseMotion, true), "\x1b[?1003h");
    assert!(t.mode(TerminalMode::MouseMotion));
    assert_eq!(t.set_mode(TerminalMode::MouseMotion, false), "\x1b[?1003l");
    assert!(!t.mode(TerminalMode::MouseMotion));
}

fn editor_modes(t: &mut Terminal) {
    t.set_mode(TerminalMode::ShowCursor, false);
    t.set_mode(TerminalMode::LineWrap, false);
    t.set_mode(TerminalMode::AltScreen, true);
    t.set_mode(TerminalMode::SgrMouse, true);
    t.set_mode(TerminalMode::MouseMotion, true);
    t.set_mode(TerminalMode::FocusInOut, true);
    t.set_mode(TerminalMode::BracketedPaste, true);
}

#[test]
fn suspend_then_resume_restores_modes_and_redraws_once() {
    let mut t = Terminal::new(dims(80, 24));
    editor_modes(&mut t);
    let before = t.restore_modes();

    let suspend = t.handle_signal(Signal::Suspend, dims(80, 24)).unwrap();
    assert_eq!(suspend.output, format!("{}\x1b[0 q", DEFAULTS));
    assert_eq!(suspend.attributes, AttributeChange::Restore);
    assert_eq!(suspend.suspend_handler, SuspendHandler::RemoveAndRaise);
    assert!(suspend.events.is_empty());
    assert!(!t.is_raw());

    // The terminal was resized while the process was stopped.
    let resume = t.handle_signal(Signal::Continue, dims(100, 30)).unwrap();
    assert_eq!(resume.output, before);
    assert_eq!(
        emitted(&format!("{}{}", suspend.output, resume.output)),
        vec![(7, false), (25, false), (1003, true), (1004, true), (1006, true), (1049, true), (2004, true)]
    );
    assert_eq!(resume.attributes, AttributeChange::EnterRaw);
    assert_eq!(resume.suspend_handler, SuspendHandler::Install);
    assert_eq!(resume.events, vec![TerminalEvent::Resize(dims(100, 30)), TerminalEvent::Redraw]);
    assert_eq!(t.dimensions(), dims(100, 30));
    assert!(t.is_raw());

    // A second cycle without a resize redraws once and reports no resize.
    t.handle_signal(Signal::Suspend, dims(100, 30)).unwrap();
    let resume = t.handle_signal(Signal::Continue, dims(100, 30)).unwrap();
    assert_eq!(resume.events, vec![TerminalEvent::Redraw]);
}

#[test]
fn window_change_reports_only_real_resizes() {
    let mut t = Terminal::new(dims(80, 24));
    let same = t.handle_signal(Signal::WindowChange, dims(80, 24)).unwrap();
    assert!(same.events.is_empty());
    assert!(same.output.is_empty());
    let changed = t.handle_signal(Signal::WindowChange, dims(81, 24)).unwrap();
    assert_eq!(changed.events, vec![TerminalEvent::Resize(dims(81, 24))]);
    assert_eq!(t.dimensions(), dims(81, 24));
}

#[test]
fn interrupt_and_terminate_request_shutdown() {
    let mut t = Terminal::new(dims(80, 24));
    for signal in [Signal::Interrupt, Signal::Terminate] {
        let action = t.handle_signal(signal, dims(80, 24)).unwrap();
        assert_eq!(action.events, vec![TerminalEvent::Shutdown]);
        assert_eq!(action.attributes, AttributeChange::Keep);
        assert_eq!(action.suspend_handler, SuspendHandler::Keep);
    }
    assert!(!t.is_terminated());
}

#[test]
fn hangup_is_broken_pipe() {
    let mut t = Terminal::new(dims(80, 24));
    assert!(matches!(t.handle_signal(Signal::Hangup, dims(1, 1)), Err(TerminalError::BrokenPipe)));
    assert_eq!(t.dimensions(), dims(80, 24));
}

fn teardown_after(exit: &str) {
    let mut t = Terminal::new(dims(80, 24));
    editor_modes(&mut t);
    match exit {
        "shutdown" => t.shutdown(),
        "sigterm" => {
            let action = t.handle_signal(Signal::Terminate, dims(80, 24)).unwrap();
            assert_eq!(action.events, vec![TerminalEvent::Shutdown]);
            t.shutdown();
        },
        _ => assert!(!retry_after_poll_error(false)),
    }
    let out = t.reset();
    assert_eq!(out, format!("{}\x1b[0 q", DEFAULTS));
    assert!(!t.is_raw());
    assert_eq!(
        emitted(&out),
        vec![(7, true), (25, true), (1003, false), (1004, false), (1006, false), (1049, false), (2004, false)]
    );
}

#[test]
fn teardown_on_normal_shutdown() {
    teardown_after("shutdown");
}

#[test]
fn teardown_on_sigterm() {
    teardown_after("sigterm");
}

#[test]
fn teardown_on_fatal_poll_error() {
    teardown_after("poll");
}

#[test]
fn interrupted_poll_is_retried() {
    assert!(retry_after_poll_error(true));
}

#[test]
fn shutdown_sets_flag() {
    let mut t = Terminal::new(dims(10, 5));
    assert!(!t.is_terminated());
    t.shutdown();
    assert!(t.is_terminated());
}

#[test]
fn output_sequences() {
    assert_eq!(goto_escape(3, 12), "\x1b[12;3H");
    assert_eq!(repeat_escape(41), "\x1b[41b");
    assert_eq!(sgr_escape(0), "\x1b[0m");
    assert_eq!(sgr_escape(2), "\x1b[2m");
    assert_eq!(clear_escape(), "\x1b[2J");
    assert_eq!(cursor_shape_escape(CursorShape::IBeam), "\x1b[6 q");
    assert_eq!(cursor_shape_escape(CursorShape::Underline), "\x1b[4 q");
}

#[test]
fn color_escapes() {
    assert_eq!(Color::Named(NamedColor::Default).escape(true), "\x1b[39m");
    assert_eq!(Color::Named(NamedColor::Red).escape(false), "\x1b[41m");
    assert_eq!(Color::Indexed(208).escape(true), "\x1b[38:5:208m");
    assert_eq!(Color::Rgb(Rgb { r: 1, g: 22, b: 255 }).escape(false), "\x1b[48:2:1:22:255m");
    assert_eq!(
        color_escape(Color::Indexed(1), Color::default()),
        "\x1b[38:5:1m\x1b[49m"
    );
}
