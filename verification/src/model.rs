//! The decoding rules as mathematics: what each callback of the classifier
//! does to the state of a performer, and which events it adds.

use vstd::prelude::*;
use crate::event::{EventView, KeyCode, MouseButton, MouseKind};
use crate::text::{any_nonzero, joined, latin, scalar};
use crate::token::TokenView;

verus! {

/// The state of a performer as a mathematical value.
pub struct StateView {
    /// The last character printed as a key.
    pub preceding_char: Option<char>,
    /// The text pasted so far, while a bracketed paste is open.
    pub paste_buffer: Option<Seq<char>>,
    /// Whether `ESC O` was seen and its final byte is still to come.
    pub pending_ss3: bool,
}

/// What one or more callbacks do: the state they leave and the events they
/// add, oldest first.
pub struct Step {
    pub state: StateView,
    pub events: Seq<EventView>,
}

/// Whether the bit of weight `weight`, a power of two, is set in `value`.
pub open spec fn has_bit(value: int, weight: int) -> bool {
    (value / weight) % 2 == 1
}

/// The modifiers that a modifier parameter encodes, as (ctrl, alt, shift):
/// the parameter less one is a mask with shift = 1, alt = 2, ctrl = 4.
/// Zero stands for no modifiers.
pub open spec fn modifiers(param: u16) -> (bool, bool, bool) {
    let mask = if param == 0 { 0 } else { param - 1 };
    (has_bit(mask, 4), has_bit(mask, 2), has_bit(mask, 1))
}

/// The parameter at `index`, or `default` where the sequence is shorter.
pub open spec fn param_or(params: Seq<u16>, index: int, default: u16) -> u16 {
    if 0 <= index < params.len() {
        params[index]
    } else {
        default
    }
}

/// The modifiers of a sequence: those of its second parameter, none
/// where it has just one.
pub open spec fn modifiers_of(params: Seq<u16>) -> (bool, bool, bool) {
    if params.len() > 1 {
        modifiers(params[1])
    } else {
        (false, false, false)
    }
}

/// A key without a character, with the modifiers of `params`.
pub open spec fn modified_key(code: KeyCode, params: Seq<u16>) -> EventView {
    let (ctrl, alt, shift) = modifiers_of(params);
    EventView::Key { code, char: None, ctrl, alt, shift }
}

/// The key that the final byte of an `ESC O` sequence stands for.
pub open spec fn ss3_key(byte: u8) -> Option<KeyCode> {
    if byte == 0x41 {
        Some(KeyCode::Up)
    } else if byte == 0x42 {
        Some(KeyCode::Down)
    } else if byte == 0x43 {
        Some(KeyCode::Right)
    } else if byte == 0x44 {
        Some(KeyCode::Left)
    } else if byte == 0x46 {
        Some(KeyCode::End)
    } else if byte == 0x48 {
        Some(KeyCode::Home)
    } else if 0x50 <= byte <= 0x53 {
        Some(KeyCode::F((byte - 0x4F) as u8))
    } else {
        None
    }
}

/// The events of an `ESC O` sequence with final byte `byte`.
pub open spec fn ss3_events(byte: u8) -> Seq<EventView> {
    match ss3_key(byte) {
        Some(code) => seq![EventView::plain_key(code, None)],
        None => Seq::empty(),
    }
}

/// The events of an `ESC O` sequence whose final character is `c`. Only an
/// ASCII character can be one of the finals; any other gives no event.
pub open spec fn ss3_final_events(c: char) -> Seq<EventView> {
    if (c as int) < 0x80 {
        ss3_events(c as u8)
    } else {
        Seq::empty()
    }
}

/// The cursor key that a control sequence's final byte stands for.
pub open spec fn cursor_key(action: char) -> Option<KeyCode> {
    if action == 'A' {
        Some(KeyCode::Up)
    } else if action == 'B' {
        Some(KeyCode::Down)
    } else if action == 'C' {
        Some(KeyCode::Right)
    } else if action == 'D' {
        Some(KeyCode::Left)
    } else if action == 'F' {
        Some(KeyCode::End)
    } else if action == 'H' {
        Some(KeyCode::Home)
    } else {
        None
    }
}

/// The key that the first parameter of a sequence ending in `~` stands for.
/// Neither 16 nor 22 stands for a key.
pub open spec fn tilde_key(number: u16) -> Option<KeyCode> {
    if number == 1 || number == 7 {
        Some(KeyCode::Home)
    } else if number == 2 {
        Some(KeyCode::Insert)
    } else if number == 3 {
        Some(KeyCode::Delete)
    } else if number == 4 || number == 8 {
        Some(KeyCode::End)
    } else if number == 5 {
        Some(KeyCode::PageUp)
    } else if number == 6 {
        Some(KeyCode::PageDown)
    } else if number == 15 {
        Some(KeyCode::F(5))
    } else if 17 <= number <= 21 {
        Some(KeyCode::F((number - 11) as u8))
    } else if number == 23 || number == 24 {
        Some(KeyCode::F((number - 12) as u8))
    } else {
        None
    }
}

/// A position on the wire counts from one; in an event it counts from zero.
/// Zero on the wire stays zero.
pub open spec fn zero_based(wire: u16) -> u16 {
    if wire == 0 {
        0
    } else {
        (wire - 1) as u16
    }
}

/// The button that the two lowest bits of the flags name.
pub open spec fn mouse_button(flags: u16) -> MouseButton {
    if flags % 4 == 0 {
        MouseButton::Left
    } else if flags % 4 == 1 {
        MouseButton::Middle
    } else if flags % 4 == 2 {
        MouseButton::Right
    } else {
        MouseButton::NoButton
    }
}

/// The event of an SGR mouse report: the flags, then column and row, both
/// counted from one. In the flags, bits 0 and 1 name the button, 4 is shift,
/// 8 alt, 16 ctrl, 32 motion and 64 scroll; a scroll has no button, and its
/// lowest bit tells down from up.
pub open spec fn mouse_event(params: Seq<u16>, pressed: bool) -> EventView {
    let flags = param_or(params, 0, 0);
    let scroll = has_bit(flags as int, 64);
    let motion = has_bit(flags as int, 32);
    EventView::Mouse {
        kind: if scroll {
            if has_bit(flags as int, 1) {
                MouseKind::ScrollDown
            } else {
                MouseKind::ScrollUp
            }
        } else if motion {
            if pressed {
                MouseKind::Drag
            } else {
                MouseKind::Move
            }
        } else {
            if pressed {
                MouseKind::Press
            } else {
                MouseKind::Release
            }
        },
        button: if scroll {
            MouseButton::NoButton
        } else {
            mouse_button(flags)
        },
        row: zero_based(param_or(params, 2, 0)),
        col: zero_based(param_or(params, 1, 0)),
        ctrl: has_bit(flags as int, 16),
        alt: has_bit(flags as int, 8),
        shift: has_bit(flags as int, 4),
    }
}

/// The events of a Kitty keyboard report: the key code, then the modifiers.
/// A code that is no Unicode scalar value gives no event.
pub open spec fn kitty_events(params: Seq<u16>) -> Seq<EventView> {
    let keycode = param_or(params, 0, 0);
    let (ctrl, alt, shift) = modifiers_of(params);
    if keycode == 9 {
        seq![EventView::Key { code: KeyCode::Tab, char: None, ctrl, alt, shift }]
    } else if keycode == 13 {
        seq![EventView::Key { code: KeyCode::Enter, char: None, ctrl, alt, shift }]
    } else if keycode == 27 {
        seq![EventView::Key { code: KeyCode::Escape, char: None, ctrl, alt, shift }]
    } else if keycode == 127 {
        seq![EventView::Key { code: KeyCode::Backspace, char: None, ctrl, alt, shift }]
    } else {
        match scalar(keycode as int) {
            Some(c) => seq![EventView::Key { code: KeyCode::Char, char: Some(c), ctrl, alt, shift }],
            None => Seq::empty(),
        }
    }
}

/// How often a repeat sequence repeats: its first parameter, and once where
/// that is zero or missing.
pub open spec fn repeat_count(params: Seq<u16>) -> nat {
    let count = param_or(params, 0, 1);
    if count == 0 {
        1
    } else {
        count as nat
    }
}

/// The events of a repeat sequence after `preceding`.
pub open spec fn repeat_events(preceding: Option<char>, params: Seq<u16>) -> Seq<EventView> {
    match preceding {
        Some(c) => Seq::new(repeat_count(params), |i: int| EventView::plain_key(KeyCode::Char, Some(c))),
        None => Seq::empty(),
    }
}

/// The event of a control byte outside a paste, where it has one.
pub open spec fn control_events(byte: u8) -> Seq<EventView> {
    if byte == 0x00 {
        seq![EventView::Key { code: KeyCode::Char, char: Some(' '), ctrl: true, alt: false, shift: false }]
    } else if byte == 0x08 || byte == 0x7F {
        seq![EventView::plain_key(KeyCode::Backspace, None)]
    } else if byte == 0x09 {
        seq![EventView::plain_key(KeyCode::Tab, None)]
    } else if byte == 0x0D {
        seq![EventView::plain_key(KeyCode::Enter, None)]
    } else if 0x01 <= byte <= 0x1A {
        seq![EventView::Key {
            code: KeyCode::Char,
            char: Some((byte + 0x60) as char),
            ctrl: true,
            alt: false,
            shift: false,
        }]
    } else {
        Seq::empty()
    }
}

/// The parameters and sub-parameters of a sequence in one row, in order.
pub open spec fn flattened(groups: Seq<Seq<u16>>) -> Seq<u16>
    decreases groups.len(),
{
    if groups.len() == 0 {
        Seq::empty()
    } else {
        flattened(groups.drop_last()) + groups.last()
    }
}

/// The text that stands for a control sequence inside a paste: `ESC [`, the
/// intermediates, the parameters unless all are zero, and the final byte.
pub open spec fn csi_text(params: Seq<u16>, intermediates: Seq<u8>, action: char) -> Seq<char> {
    seq!['\x1b', '['] + latin(intermediates) + (if any_nonzero(params) {
        joined(params)
    } else {
        Seq::empty()
    }).push(action)
}

/// Whether a control sequence closes a paste: `CSI 201 ~` without
/// intermediates.
pub open spec fn closes_paste(params: Seq<u16>, intermediates: Seq<u8>, action: char) -> bool {
    action == '~' && intermediates.len() == 0 && params.len() > 0 && params[0] == 201
}

impl StateView {
    /// The state of a new performer.
    pub open spec fn initial() -> StateView {
        StateView { preceding_char: None, paste_buffer: None, pending_ss3: false }
    }

    /// The state left alone, with no event.
    pub open spec fn quiet(self) -> Step {
        Step { state: self, events: Seq::empty() }
    }

    /// The state left alone, with the events given.
    pub open spec fn emit(self, events: Seq<EventView>) -> Step {
        Step { state: self, events }
    }

    /// `text` goes to the end of the open paste; without one nothing happens.
    pub open spec fn paste(self, text: Seq<char>) -> Step {
        match self.paste_buffer {
            Some(content) => (StateView { paste_buffer: Some(content + text), ..self }).quiet(),
            None => self.quiet(),
        }
    }

    /// A character arrives in the ground state. After `ESC O` it is that
    /// sequence's final and is used up, whether it stands for a key or not;
    /// in a paste it is pasted text; else it is a key.
    pub open spec fn print(self, c: char) -> Step {
        if self.pending_ss3 {
            (StateView { pending_ss3: false, ..self }).emit(ss3_final_events(c))
        } else if self.paste_buffer is Some {
            self.paste(seq![c])
        } else {
            (StateView { preceding_char: Some(c), ..self }).emit(
                seq![
                    if c == '\x7f' {
                        EventView::plain_key(KeyCode::Backspace, None)
                    } else {
                        EventView::plain_key(KeyCode::Char, Some(c))
                    },
                ],
            )
        }
    }

    /// A control byte arrives. In a paste it is pasted text; else it may be
    /// a key.
    pub open spec fn execute(self, byte: u8) -> Step {
        if self.paste_buffer is Some {
            self.paste(seq![byte as char])
        } else {
            self.emit(control_events(byte))
        }
    }

    /// A control sequence that is neither the end of a paste nor inside one,
    /// and that the classifier read in full.
    pub open spec fn csi_keys(self, params: Seq<u16>, intermediates: Seq<u8>, action: char) -> Step {
        if intermediates.len() == 0 {
            if cursor_key(action) is Some {
                self.emit(seq![modified_key(cursor_key(action)->0, params)])
            } else if action == 'Z' {
                self.emit(
                    seq![
                        EventView::Key {
                            code: KeyCode::Tab,
                            char: None,
                            ctrl: false,
                            alt: false,
                            shift: true,
                        },
                    ],
                )
            } else if action == 'I' {
                self.emit(seq![EventView::Focus(true)])
            } else if action == 'O' {
                self.emit(seq![EventView::Focus(false)])
            } else if action == 'u' {
                self.emit(kitty_events(params))
            } else if action == 'b' {
                self.emit(repeat_events(self.preceding_char, params))
            } else if action == '~' {
                let number = param_or(params, 0, 0);
                if number == 200 {
                    (StateView { paste_buffer: Some(Seq::empty()), ..self }).quiet()
                } else {
                    match tilde_key(number) {
                        Some(code) => self.emit(seq![modified_key(code, params)]),
                        None => self.quiet(),
                    }
                }
            } else {
                self.quiet()
            }
        } else if intermediates.len() == 1 && intermediates[0] == 0x3C && (action == 'M' || action == 'm') {
            self.emit(seq![mouse_event(params, action == 'M')])
        } else {
            self.quiet()
        }
    }

    /// A control sequence arrives. The end of a paste comes first, then the
    /// paste that is open; a sequence that ran over a limit is dropped.
    pub open spec fn csi_dispatch(
        self,
        groups: Seq<Seq<u16>>,
        intermediates: Seq<u8>,
        ignore: bool,
        action: char,
    ) -> Step {
        let params = flattened(groups);
        if closes_paste(params, intermediates, action) {
            match self.paste_buffer {
                Some(content) => (StateView { paste_buffer: None, ..self }).emit(
                    seq![EventView::Paste(content)],
                ),
                None => self.quiet(),
            }
        } else if self.paste_buffer is Some {
            self.paste(csi_text(params, intermediates, action))
        } else if ignore || intermediates.len() > 2 {
            self.quiet()
        } else {
            self.csi_keys(params, intermediates, action)
        }
    }

    /// An escape sequence arrives. `ESC O` opens a two-byte key; `ESC` before
    /// a printable character is that character with alt.
    pub open spec fn esc_dispatch(self, intermediates: Seq<u8>, ignore: bool, byte: u8) -> Step {
        if intermediates.len() != 0 {
            self.quiet()
        } else if byte == 0x4F {
            (StateView { pending_ss3: true, ..self }).quiet()
        } else if 0x20 <= byte <= 0x7E {
            self.emit(
                seq![
                    EventView::Key {
                        code: KeyCode::Char,
                        char: Some(byte as char),
                        ctrl: false,
                        alt: true,
                        shift: false,
                    },
                ],
            )
        } else {
            self.quiet()
        }
    }

    /// One callback.
    pub open spec fn perform(self, token: TokenView) -> Step {
        match token {
            TokenView::Print(c) => self.print(c),
            TokenView::Execute(byte) => self.execute(byte),
            TokenView::Csi { params, intermediates, ignore, action } => self.csi_dispatch(
                params,
                intermediates,
                ignore,
                action,
            ),
            TokenView::Esc { intermediates, ignore, byte } => self.esc_dispatch(
                intermediates,
                ignore,
                byte,
            ),
        }
    }

    /// A run of callbacks, one after the other.
    pub open spec fn perform_all(self, tokens: Seq<TokenView>) -> Step
        decreases tokens.len(),
    {
        if tokens.len() == 0 {
            self.quiet()
        } else {
            let before = self.perform_all(tokens.drop_last());
            let last = before.state.perform(tokens.last());
            Step { state: last.state, events: before.events + last.events }
        }
    }
}

} // verus!
