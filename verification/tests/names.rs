use vtx_parser::event::{KeyCode, MouseButton, MouseKind};
use vtx_parser::text::{has_nonzero, push_decimal, push_joined, push_latin};

#[test]
fn key_code_names() {
    let named = [
        (KeyCode::Char, "char"),
        (KeyCode::Enter, "enter"),
        (KeyCode::Escape, "escape"),
        (KeyCode::Tab, "tab"),
        (KeyCode::Backspace, "backspace"),
        (KeyCode::Delete, "delete"),
        (KeyCode::Up, "up"),
        (KeyCode::Down, "down"),
        (KeyCode::Left, "left"),
        (KeyCode::Right, "right"),
        (KeyCode::Home, "home"),
        (KeyCode::End, "end"),
        (KeyCode::PageUp, "page_up"),
        (KeyCode::PageDown, "page_down"),
        (KeyCode::Insert, "insert"),
    ];
    for (code, name) in named {
        assert_eq!(code.as_str(), name);
        assert_eq!(code.name(), name);
    }
}

#[test]
fn function_key_names() {
    assert_eq!(KeyCode::F(1).name(), "f1");
    assert_eq!(KeyCode::F(9).name(), "f9");
    assert_eq!(KeyCode::F(10).name(), "f10");
    assert_eq!(KeyCode::F(12).name(), "f12");
    assert_eq!(KeyCode::F(0).name(), "f0");
    assert_eq!(KeyCode::F(255).name(), "f255");
}

#[test]
fn mouse_kind_names() {
    assert_eq!(MouseKind::Press.as_str(), "press");
    assert_eq!(MouseKind::Release.as_str(), "release");
    assert_eq!(MouseKind::Drag.as_str(), "drag");
    assert_eq!(MouseKind::Move.as_str(), "move");
    assert_eq!(MouseKind::ScrollUp.as_str(), "scroll_up");
    assert_eq!(MouseKind::ScrollDown.as_str(), "scroll_down");
}

#[test]
fn mouse_button_names() {
    assert_eq!(MouseButton::Left.as_str(), "left");
    assert_eq!(MouseButton::Middle.as_str(), "middle");
    assert_eq!(MouseButton::Right.as_str(), "right");
    assert_eq!(MouseButton::NoButton.as_str(), "none");
}

#[test]
fn decimal_numerals() {
    for (number, numeral) in [(0u16, "0"), (7, "7"), (10, "10"), (99, "99"), (100, "100"), (201, "201"), (65535, "65535")] {
        let mut buf = String::from(">");
        push_decimal(&mut buf, number);
        assert_eq!(buf, format!(">{}", numeral));
    }
}

#[test]
fn decimal_agrees_with_std_for_every_number() {
    for number in 0..=u16::MAX {
        let mut buf = String::new();
        push_decimal(&mut buf, number);
        assert_eq!(buf, number.to_string());
    }
}

#[test]
fn joined_numerals() {
    let mut buf = String::from("[");
    push_joined(&mut buf, &[]);
    assert_eq!(buf, "[");
    push_joined(&mut buf, &[5]);
    assert_eq!(buf, "[5");
    push_joined(&mut buf, &[0, 12, 345]);
    assert_eq!(buf, "[50;12;345");
}

#[test]
fn latin_bytes_keep_their_numbers() {
    let mut buf = String::from("a");
    push_latin(&mut buf, &[]);
    push_latin(&mut buf, &[0x3C, 0x20, 0xE9, 0x00]);
    assert_eq!(buf, "a< \u{e9}\0");
}

#[test]
fn nonzero_is_found_anywhere() {
    assert!(!has_nonzero(&[]));
    assert!(!has_nonzero(&[0]));
    assert!(!has_nonzero(&[0, 0, 0]));
    assert!(has_nonzero(&[1]));
    assert!(has_nonzero(&[0, 0, 65535]));
    assert!(has_nonzero(&[3, 0, 0]));
}
