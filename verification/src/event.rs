//! Input events and the enumerations they are built from.

use vstd::prelude::*;
use crate::text::{decimal, push_decimal};

verus! {

/// The key that a key event reports.
#[derive(Debug, Clone, Copy, PartialEq, Eq, Structural)]
pub enum KeyCode {
    Char,
    Enter,
    Escape,
    Tab,
    Backspace,
    Delete,
    Up,
    Down,
    Left,
    Right,
    Home,
    End,
    PageUp,
    PageDown,
    Insert,
    /// A function key, by its number.
    F(u8),
}

impl KeyCode {
    /// The name under which a host knows this key: the lower-case name of a
    /// named key, and `f` followed by the number for a function key.
    pub open spec fn label(self) -> Seq<char> {
        match self {
            KeyCode::Char => "char"@,
            KeyCode::Enter => "enter"@,
            KeyCode::Escape => "escape"@,
            KeyCode::Tab => "tab"@,
            KeyCode::Backspace => "backspace"@,
            KeyCode::Delete => "delete"@,
            KeyCode::Up => "up"@,
            KeyCode::Down => "down"@,
            KeyCode::Left => "left"@,
            KeyCode::Right => "right"@,
            KeyCode::Home => "home"@,
            KeyCode::End => "end"@,
            KeyCode::PageUp => "page_up"@,
            KeyCode::PageDown => "page_down"@,
            KeyCode::Insert => "insert"@,
            KeyCode::F(n) => seq!['f'] + decimal(n as nat),
        }
    }

    /// The name of a named key. Function keys have no fixed name: see
    /// [`KeyCode::name`].
    pub fn as_str(self) -> (name: &'static str)
        requires
            !(self is F),
        ensures
            name@ == self.label(),
    {
        match self {
            KeyCode::Char => "char",
            KeyCode::Enter => "enter",
            KeyCode::Escape => "escape",
            KeyCode::Tab => "tab",
            KeyCode::Backspace => "backspace",
            KeyCode::Delete => "delete",
            KeyCode::Up => "up",
            KeyCode::Down => "down",
            KeyCode::Left => "left",
            KeyCode::Right => "right",
            KeyCode::Home => "home",
            KeyCode::End => "end",
            KeyCode::PageUp => "page_up",
            KeyCode::PageDown => "page_down",
            _ => "insert",
        }
    }

    /// The name of any key, function keys included.
    pub fn name(self) -> (name: String)
        ensures
            name@ == self.label(),
    {
        match self {
            KeyCode::F(n) => {
                let mut name = String::new();
                name.push('f');
                push_decimal(&mut name, n as u16);
                assert(name@ =~= seq!['f'] + decimal(n as nat));
                name
            },
            other => other.as_str().to_owned(),
        }
    }
}

/// What a mouse event reports of the pointer.
#[derive(Debug, Clone, Copy, PartialEq, Eq, Structural)]
pub enum MouseKind {
    Press,
    Release,
    Drag,
    Move,
    ScrollUp,
    ScrollDown,
}

impl MouseKind {
    /// The name under which a host knows this kind.
    pub open spec fn label(self) -> Seq<char> {
        match self {
            MouseKind::Press => "press"@,
            MouseKind::Release => "release"@,
            MouseKind::Drag => "drag"@,
            MouseKind::Move => "move"@,
            MouseKind::ScrollUp => "scroll_up"@,
            MouseKind::ScrollDown => "scroll_down"@,
        }
    }

    pub fn as_str(self) -> (name: &'static str)
        ensures
            name@ == self.label(),
    {
        match self {
            MouseKind::Press => "press",
            MouseKind::Release => "release",
            MouseKind::Drag => "drag",
            MouseKind::Move => "move",
            MouseKind::ScrollUp => "scroll_up",
            MouseKind::ScrollDown => "scroll_down",
        }
    }
}

/// The button that a mouse event is about.
#[derive(Debug, Clone, Copy, PartialEq, Eq, Structural)]
pub enum MouseButton {
    Left,
    Middle,
    Right,
    /// No button: a scroll, or a report that names none.
    NoButton,
}

impl MouseButton {
    /// The name under which a host knows this button.
    pub open spec fn label(self) -> Seq<char> {
        match self {
            MouseButton::Left => "left"@,
            MouseButton::Middle => "middle"@,
            MouseButton::Right => "right"@,
            MouseButton::NoButton => "none"@,
        }
    }

    pub fn as_str(self) -> (name: &'static str)
        ensures
            name@ == self.label(),
    {
        match self {
            MouseButton::Left => "left",
            MouseButton::Middle => "middle",
            MouseButton::Right => "right",
            MouseButton::NoButton => "none",
        }
    }
}

/// One event of user input.
#[derive(Debug, Clone, PartialEq, Eq)]
pub enum Event {
    Key { code: KeyCode, char: Option<char>, ctrl: bool, alt: bool, shift: bool },
    Mouse {
        kind: MouseKind,
        button: MouseButton,
        row: u16,
        col: u16,
        ctrl: bool,
        alt: bool,
        shift: bool,
    },
    Paste(String),
    Focus(bool),
}

/// An event as a mathematical value: a paste holds a sequence of characters.
pub enum EventView {
    Key { code: KeyCode, char: Option<char>, ctrl: bool, alt: bool, shift: bool },
    Mouse {
        kind: MouseKind,
        button: MouseButton,
        row: u16,
        col: u16,
        ctrl: bool,
        alt: bool,
        shift: bool,
    },
    Paste(Seq<char>),
    Focus(bool),
}

impl View for Event {
    type V = EventView;

    open spec fn view(&self) -> EventView {
        match *self {
            Event::Key { code, char, ctrl, alt, shift } => EventView::Key {
                code,
                char,
                ctrl,
                alt,
                shift,
            },
            Event::Mouse { kind, button, row, col, ctrl, alt, shift } => EventView::Mouse {
                kind,
                button,
                row,
                col,
                ctrl,
                alt,
                shift,
            },
            Event::Paste(content) => EventView::Paste(content@),
            Event::Focus(focused) => EventView::Focus(focused),
        }
    }
}

impl DeepView for Event {
    type V = EventView;

    open spec fn deep_view(&self) -> EventView {
        self@
    }
}

impl EventView {
    /// Whether the event is one that a performer makes: a key carries a
    /// character exactly when its code is `Char`, and a scroll names no
    /// button.
    pub open spec fn well_formed(self) -> bool {
        match self {
            EventView::Key { code, char, ctrl, alt, shift } => (code is Char) == (char is Some),
            EventView::Mouse { kind, button, row, col, ctrl, alt, shift } => (kind is ScrollUp
                || kind is ScrollDown) ==> button is NoButton,
            _ => true,
        }
    }

    /// A key event without modifiers.
    pub open spec fn plain_key(code: KeyCode, char: Option<char>) -> EventView {
        EventView::Key { code, char, ctrl: false, alt: false, shift: false }
    }
}

} // verus!
