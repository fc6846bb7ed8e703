use vtx_parser::event::{Event, KeyCode, MouseButton, MouseKind};
use vtx_parser::parser::NativeParser;

fn key(code: KeyCode) -> Event {
    Event::Key { code, char: None, ctrl: false, alt: false, shift: false }
}

fn typed(c: char) -> Event {
    Event::Key { code: KeyCode::Char, char: Some(c), ctrl: false, alt: false, shift: false }
}

fn parse_once(input: &[u8]) -> Vec<Event> {
    NativeParser::new().parse(input)
}

#[test]
fn plain_letter_is_a_char_key() {
    assert_eq!(parse_once(b"a"), vec![typed('a')]);
}

#[test]
fn control_a_is_the_letter_with_ctrl() {
    assert_eq!(
        parse_once(b"\x01"),
        vec![Event::Key { code: KeyCode::Char, char: Some('a'), ctrl: true, alt: false, shift: false }]
    );
}

#[test]
fn csi_a_is_up() {
    assert_eq!(parse_once(b"\x1b[A"), vec![key(KeyCode::Up)]);
}

#[test]
fn csi_with_modifier_five_is_ctrl_right() {
    assert_eq!(
        parse_once(b"\x1b[1;5C"),
        vec![Event::Key { code: KeyCode::Right, char: None, ctrl: true, alt: false, shift: false }]
    );
}

#[test]
fn ss3_q_is_f2() {
    assert_eq!(parse_once(b"\x1bOQ"), vec![key(KeyCode::F(2))]);
}

#[test]
fn sgr_press_and_release() {
    let press = Event::Mouse {
        kind: MouseKind::Press,
        button: MouseButton::Left,
        row: 5,
        col: 10,
        ctrl: false,
        alt: false,
        shift: false,
    };
    let release = Event::Mouse {
        kind: MouseKind::Release,
        button: MouseButton::Left,
        row: 5,
        col: 10,
        ctrl: false,
        alt: false,
        shift: false,
    };
    assert_eq!(parse_once(b"\x1b[<0;11;6M\x1b[<0;11;6m"), vec![press, release]);
}

#[test]
fn sgr_scroll_down_has_no_button() {
    assert_eq!(
        parse_once(b"\x1b[<65;1;1M"),
        vec![Event::Mouse {
            kind: MouseKind::ScrollDown,
            button: MouseButton::NoButton,
            row: 0,
            col: 0,
            ctrl: false,
            alt: false,
            shift: false,
        }]
    );
}

#[test]
fn bracketed_paste_gives_its_content() {
    assert_eq!(parse_once(b"\x1b[200~hello\x1b[201~"), vec![Event::Paste("hello".to_string())]);
}

#[test]
fn lone_escape_is_pending_until_flushed() {
    let mut parser = NativeParser::new();
    assert_eq!(parser.parse(b"\x1b"), vec![]);
    assert!(parser.pending());
    assert_eq!(parser.flush(), vec![key(KeyCode::Escape)]);
    assert!(!parser.pending());
    assert_eq!(parser.flush(), vec![]);
}

#[test]
fn repeat_sequence_repeats_the_preceding_char() {
    assert_eq!(parse_once(b"a\x1b[3b"), vec![typed('a'), typed('a'), typed('a'), typed('a')]);
}

#[test]
fn ss3_split_over_two_calls() {
    let mut parser = NativeParser::new();
    assert_eq!(parser.parse(b"\x1bO"), vec![]);
    assert!(parser.pending());
    assert_eq!(parser.parse(b"P"), vec![key(KeyCode::F(1))]);
    assert!(!parser.pending());
}

#[test]
fn escape_then_letter_is_alt() {
    assert_eq!(
        parse_once(b"\x1ba"),
        vec![Event::Key { code: KeyCode::Char, char: Some('a'), ctrl: false, alt: true, shift: false }]
    );
}
