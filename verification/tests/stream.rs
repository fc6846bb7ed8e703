use vtx_parser::classifier::Recorder;
use vtx_parser::event::{Event, KeyCode, MouseButton, MouseKind};
use vtx_parser::parser::NativeParser;
use vtx_parser::token::Token;

fn plain(code: KeyCode) -> Event {
    Event::Key { code, char: None, ctrl: false, alt: false, shift: false }
}

fn letter(c: char) -> Event {
    Event::Key { code: KeyCode::Char, char: Some(c), ctrl: false, alt: false, shift: false }
}

fn csi(params: &[u16], intermediates: &[u8], action: char) -> Token {
    Token::Csi {
        params: params.iter().map(|p| vec![*p]).collect(),
        intermediates: intermediates.to_vec(),
        ignore: false,
        action,
    }
}

fn record(bytes: &[u8]) -> Vec<Token> {
    let mut recorder = Recorder { tokens: Vec::new() };
    vte::Parser::new().advance(&mut recorder, bytes);
    recorder.tokens
}

#[test]
fn new_parser_has_nothing_pending() {
    let mut parser = NativeParser::new();
    assert!(!parser.pending());
    assert_eq!(parser.flush(), vec![]);
    assert!(!parser.pending());
}

#[test]
fn empty_input_gives_nothing() {
    let mut parser = NativeParser::new();
    assert_eq!(parser.parse(b""), vec![]);
    assert!(!parser.pending());
}

#[test]
fn recorder_keeps_each_kind_of_callback() {
    assert_eq!(
        record(b"a\x0d\x1b[1;5C\x1bb"),
        vec![
            Token::Print('a'),
            Token::Execute(0x0D),
            csi(&[1, 5], b"", 'C'),
            Token::Esc { intermediates: vec![], ignore: false, byte: b'b' },
        ]
    );
}

#[test]
fn recorder_keeps_sub_parameters_in_their_groups() {
    assert_eq!(
        record(b"\x1b[4:3;38:2:255m"),
        vec![Token::Csi {
            params: vec![vec![4, 3], vec![38, 2, 255]],
            intermediates: vec![],
            ignore: false,
            action: 'm',
        }]
    );
}

#[test]
fn recorder_keeps_intermediates() {
    assert_eq!(
        record(b"\x1b[<0;11;6M\x1b(B"),
        vec![
            csi(&[0, 11, 6], b"<", 'M'),
            Token::Esc { intermediates: vec![b'('], ignore: false, byte: b'B' },
        ]
    );
}

#[test]
fn recorder_leaves_out_strings() {
    assert_eq!(record(b"\x1b]0;title\x07\x1bPq#0\x1b\\x"), vec![
        Token::Esc { intermediates: vec![], ignore: false, byte: b'\\' },
        Token::Print('x'),
    ]);
}

#[test]
fn recorder_marks_a_sequence_with_too_many_parameters() {
    let mut input = b"\x1b[".to_vec();
    for _ in 0..40 {
        input.extend_from_slice(b"1;");
    }
    input.push(b'A');
    let tokens = record(&input);
    assert_eq!(tokens.len(), 1);
    match &tokens[0] {
        Token::Csi { ignore, action, .. } => {
            assert!(*ignore);
            assert_eq!(*action, 'A');
        },
        other => panic!("unexpected {:?}", other),
    }
    assert_eq!(NativeParser::new().parse(&input), vec![]);
}

#[test]
fn parse_tokens_is_parse_without_the_classifier() {
    let input = b"a\x1b[1;5C\x1b[<65;1;1M";
    let mut fed = NativeParser::new();
    let mut handed = NativeParser::new();
    let tokens = record(input);
    assert_eq!(handed.parse_tokens(&tokens, false), fed.parse(input));
    assert_eq!(handed.pending(), fed.pending());
}

#[test]
fn parse_tokens_sets_the_latch() {
    let mut parser = NativeParser::new();
    assert_eq!(parser.parse_tokens(&[], true), vec![]);
    assert!(parser.pending());
    assert_eq!(parser.parse_tokens(&[], false), vec![]);
    assert!(!parser.pending());
    assert_eq!(parser.parse_tokens(&[Token::Print('a')], true), vec![letter('a')]);
    assert!(!parser.pending());
    let ss3 = Token::Esc { intermediates: vec![], ignore: false, byte: b'O' };
    assert_eq!(parser.parse_tokens(&[Token::Print('a'), ss3], false), vec![letter('a')]);
    assert!(parser.pending());
}

#[test]
fn text_comes_out_in_order() {
    let events = NativeParser::new().parse("h\u{e9}llo \u{4e16}\u{754c}".as_bytes());
    let expected: Vec<Event> = "h\u{e9}llo \u{4e16}\u{754c}".chars().map(letter).collect();
    assert_eq!(events, expected);
}

#[test]
fn delete_byte_is_backspace() {
    assert_eq!(NativeParser::new().parse(b"\x7f"), vec![plain(KeyCode::Backspace)]);
}

#[test]
fn control_bytes_in_a_stream() {
    let ctrl = |c| Event::Key { code: KeyCode::Char, char: Some(c), ctrl: true, alt: false, shift: false };
    assert_eq!(
        NativeParser::new().parse(b"\x00\x03\x08\x09\x0d\x1a"),
        vec![
            ctrl(' '),
            ctrl('c'),
            plain(KeyCode::Backspace),
            plain(KeyCode::Tab),
            plain(KeyCode::Enter),
            ctrl('z'),
        ]
    );
}

#[test]
fn function_keys_in_a_stream() {
    assert_eq!(
        NativeParser::new().parse(b"\x1bOP\x1bOS\x1b[15~\x1b[17~\x1b[24~\x1b[16~\x1b[22~"),
        vec![
            plain(KeyCode::F(1)),
            plain(KeyCode::F(4)),
            plain(KeyCode::F(5)),
            plain(KeyCode::F(6)),
            plain(KeyCode::F(12)),
        ]
    );
}

#[test]
fn navigation_keys_in_a_stream() {
    assert_eq!(
        NativeParser::new().parse(b"\x1b[H\x1b[F\x1b[2~\x1b[3~\x1b[5~\x1b[6~\x1b[Z"),
        vec![
            plain(KeyCode::Home),
            plain(KeyCode::End),
            plain(KeyCode::Insert),
            plain(KeyCode::Delete),
            plain(KeyCode::PageUp),
            plain(KeyCode::PageDown),
            Event::Key { code: KeyCode::Tab, char: None, ctrl: false, alt: false, shift: true },
        ]
    );
}

#[test]
fn focus_in_a_stream() {
    assert_eq!(
        NativeParser::new().parse(b"\x1b[I\x1b[O"),
        vec![Event::Focus(true), Event::Focus(false)]
    );
}

#[test]
fn kitty_in_a_stream() {
    assert_eq!(
        NativeParser::new().parse(b"\x1b[97;5u\x1b[13u\x1b[55296u"),
        vec![
            Event::Key { code: KeyCode::Char, char: Some('a'), ctrl: true, alt: false, shift: false },
            plain(KeyCode::Enter),
        ]
    );
}

#[test]
fn mouse_drag_with_modifiers_in_a_stream() {
    assert_eq!(
        NativeParser::new().parse(b"\x1b[<50;80;24M"),
        vec![Event::Mouse {
            kind: MouseKind::Drag,
            button: MouseButton::Right,
            row: 23,
            col: 79,
            ctrl: true,
            alt: false,
            shift: false,
        }]
    );
}

#[test]
fn sequence_split_at_every_byte() {
    let input: &[u8] = b"a\x1b[1;5C\x1bOQ\x1b[<0;11;6M\x1b[200~hi\x1b[7m\x1b[201~\xc3\xa9\x1b[3b";
    let whole = NativeParser::new().parse(input);
    assert_eq!(whole.len(), 9);
    for cut in 0..=input.len() {
        let mut parser = NativeParser::new();
        let mut events = parser.parse(&input[..cut]);
        events.extend(parser.parse(&input[cut..]));
        assert_eq!(events, whole, "cut at {}", cut);
    }
}

#[test]
fn sequence_fed_byte_by_byte() {
    let input: &[u8] = b"\x1b[1;5C\x1b[<65;1;1M\x1bOP";
    let whole = NativeParser::new().parse(input);
    let mut parser = NativeParser::new();
    let mut events = Vec::new();
    for byte in input {
        events.extend(parser.parse(&[*byte]));
    }
    assert_eq!(events, whole);
    assert!(!parser.pending());
}

#[test]
fn escape_followed_by_a_sequence_in_the_next_call() {
    let mut parser = NativeParser::new();
    assert_eq!(parser.parse(b"\x1b"), vec![]);
    assert!(parser.pending());
    assert_eq!(parser.parse(b"[A"), vec![plain(KeyCode::Up)]);
    assert!(!parser.pending());
    assert_eq!(parser.flush(), vec![]);
}

#[test]
fn trailing_escape_after_events_is_not_pending() {
    let mut parser = NativeParser::new();
    assert_eq!(parser.parse(b"a\x1b"), vec![letter('a')]);
    assert!(!parser.pending());
    assert_eq!(parser.flush(), vec![]);
    assert_eq!(parser.parse(b"b"), vec![Event::Key {
        code: KeyCode::Char,
        char: Some('b'),
        ctrl: false,
        alt: true,
        shift: false,
    }]);
}

#[test]
fn non_ascii_after_ss3_gives_nothing() {
    let mut parser = NativeParser::new();
    assert_eq!(parser.parse("\x1bO\u{141}".as_bytes()), vec![]);
    assert!(!parser.pending());
    assert_eq!(parser.parse(b"A"), vec![letter('A')]);
}

#[test]
fn flush_starts_the_classifier_afresh() {
    let mut parser = NativeParser::new();
    assert_eq!(parser.parse(b"\x1b"), vec![]);
    assert_eq!(parser.flush(), vec![plain(KeyCode::Escape)]);
    assert_eq!(parser.parse(b"[A"), vec![letter('['), letter('A')]);
}

#[test]
fn flush_forgets_a_pending_ss3() {
    let mut parser = NativeParser::new();
    assert_eq!(parser.parse(b"\x1bO"), vec![]);
    assert!(parser.pending());
    assert_eq!(parser.flush(), vec![plain(KeyCode::Escape)]);
    assert!(!parser.pending());
    assert_eq!(parser.parse(b"P"), vec![letter('P')]);
}

#[test]
fn flush_keeps_the_preceding_char() {
    let mut parser = NativeParser::new();
    assert_eq!(parser.parse(b"q"), vec![letter('q')]);
    assert_eq!(parser.parse(b"\x1b"), vec![]);
    assert_eq!(parser.flush(), vec![plain(KeyCode::Escape)]);
    assert_eq!(parser.parse(b"\x1b[2b"), vec![letter('q'), letter('q')]);
}

#[test]
fn flush_keeps_the_open_paste() {
    let mut parser = NativeParser::new();
    assert_eq!(parser.parse(b"\x1b[200~ab\x1b"), vec![]);
    assert!(parser.pending());
    assert_eq!(parser.flush(), vec![plain(KeyCode::Escape)]);
    assert_eq!(parser.parse(b"cd\x1b[201~"), vec![Event::Paste("abcd".to_string())]);
}

#[test]
fn ill_formed_utf8_does_not_stop_the_parser() {
    let mut parser = NativeParser::new();
    let events = parser.parse(&[0xFF, b'a', 0xC3, 0x28, 0xF0, 0x9F]);
    assert!(events.contains(&letter('a')));
    assert_eq!(parser.parse(b"\x1b[A"), vec![letter('\u{FFFD}'), plain(KeyCode::Up)]);
}

#[test]
fn every_single_byte_is_accepted() {
    for byte in 0..=255u8 {
        let mut parser = NativeParser::new();
        let events = parser.parse(&[byte]);
        assert!(events.len() <= 1);
        assert_eq!(parser.pending(), byte == 0x1B);
    }
}
