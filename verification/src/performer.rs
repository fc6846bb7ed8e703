//! The event performer: it takes the classifier's callbacks one by one and
//! turns them into events.

use vstd::prelude::*;
use crate::event::{Event, EventView, KeyCode, MouseButton, MouseKind};
use crate::model::{
    csi_text, flattened, kitty_events, modified_key, modifiers, mouse_event, ss3_events,
    StateView, Step,
};
use crate::text::{has_nonzero, push_joined, push_latin};
use crate::token::{Token, TokenView};

verus! {

/// Shift, in a modifier parameter less one.
pub const MODIFIER_SHIFT: u16 = 0x01;

/// Alt, in a modifier parameter less one.
pub const MODIFIER_ALT: u16 = 0x02;

/// Ctrl, in a modifier parameter less one.
pub const MODIFIER_CTRL: u16 = 0x04;

/// The bits of a mouse report's flags that name the button.
pub const MOUSE_BUTTON_MASK: u16 = 0x03;

/// Shift, in a mouse report's flags.
pub const MOUSE_SHIFT: u16 = 0x04;

/// Alt, in a mouse report's flags.
pub const MOUSE_ALT: u16 = 0x08;

/// Ctrl, in a mouse report's flags.
pub const MOUSE_CTRL: u16 = 0x10;

/// Motion, in a mouse report's flags.
pub const MOUSE_MOTION: u16 = 0x20;

/// Scroll, in a mouse report's flags.
pub const MOUSE_SCROLL: u16 = 0x40;

/// In a scroll report's flags, down rather than up.
pub const MOUSE_SCROLL_DOWN: u16 = 0x01;

/// What a performer remembers from one callback to the next. It outlives
/// the performers that borrow it.
#[derive(Debug)]
pub struct PerformerState {
    /// The last character printed as a key.
    pub preceding_char: Option<char>,
    /// The text pasted so far, while a bracketed paste is open.
    pub paste_buffer: Option<String>,
    /// Whether `ESC O` was seen and its final byte is still to come.
    pub pending_ss3: bool,
}

impl View for PerformerState {
    type V = StateView;

    open spec fn view(&self) -> StateView {
        StateView {
            preceding_char: self.preceding_char,
            paste_buffer: self.paste_buffer.deep_view(),
            pending_ss3: self.pending_ss3,
        }
    }
}

impl Default for PerformerState {
    fn default() -> (state: PerformerState)
        ensures
            state@ == StateView::initial(),
    {
        PerformerState { preceding_char: None, paste_buffer: None, pending_ss3: false }
    }
}

/// Collects the events of one run of callbacks, on a state that it borrows.
pub struct Performer<'a> {
    pub state: &'a mut PerformerState,
    pub events: Vec<Event>,
}

/// A performer as a mathematical value: the state as it stands, and the
/// events collected so far.
pub struct PerformerView {
    pub state: StateView,
    pub events: Seq<EventView>,
}

impl PerformerView {
    /// The performer once `step` is done.
    pub open spec fn after(self, step: Step) -> PerformerView {
        PerformerView { state: step.state, events: self.events + step.events }
    }
}

/// A step without events leaves the events collected so far as they are.
pub proof fn lemma_nothing_added(events: Seq<EventView>)
    ensures
        events + Seq::<EventView>::empty() == events,
{
    assert(events + Seq::<EventView>::empty() =~= events);
}

impl<'a> View for Performer<'a> {
    type V = PerformerView;

    open spec fn view(&self) -> PerformerView {
        PerformerView { state: (*self.state)@, events: self.events.deep_view() }
    }
}

impl<'a> Performer<'a> {
    /// A performer on `state` that has collected nothing yet.
    pub fn new(state: &'a mut PerformerState) -> (performer: Self)
        ensures
            performer@ == (PerformerView { state: old(state)@, events: Seq::empty() }),
            *final(performer.state) == *final(state),
    {
        let performer = Performer { state, events: Vec::new() };
        assert(performer.events.deep_view() =~= Seq::empty());
        performer
    }

    /// Adds one key event.
    pub fn push_key(
        &mut self,
        code: KeyCode,
        char: Option<char>,
        ctrl: bool,
        alt: bool,
        shift: bool,
    )
        ensures
            final(self)@ == old(self)@.after(
                old(self)@.state.emit(seq![EventView::Key { code, char, ctrl, alt, shift }]),
            ),
            *final(final(self).state) == *final(old(self).state),
    {
        self.events.push(Event::Key { code, char, ctrl, alt, shift });
        assert(self.events.deep_view() =~= old(self).events.deep_view() + seq![
            EventView::Key { code, char, ctrl, alt, shift },
        ]);
    }

    /// Adds one key event without character or modifiers.
    pub fn push_simple_key(&mut self, code: KeyCode)
        ensures
            final(self)@ == old(self)@.after(
                old(self)@.state.emit(seq![EventView::plain_key(code, None)]),
            ),
            *final(final(self).state) == *final(old(self).state),
    {
        self.push_key(code, None, false, false, false);
    }

    /// Decodes a modifier parameter into (ctrl, alt, shift).
    pub fn parse_modifiers(param: u16) -> (held: (bool, bool, bool))
        ensures
            held == modifiers(param),
    {
        let m = param.saturating_sub(1);
        assert(((m & 0x04) != 0) == ((m / 4) % 2 == 1)) by (bit_vector);
        assert(((m & 0x02) != 0) == ((m / 2) % 2 == 1)) by (bit_vector);
        assert(((m & 0x01) != 0) == ((m / 1) % 2 == 1)) by (bit_vector);
        (m & MODIFIER_CTRL != 0, m & MODIFIER_ALT != 0, m & MODIFIER_SHIFT != 0)
    }

    /// Adds a key event whose modifiers are those of `params`.
    pub fn push_key_with_modifiers(&mut self, code: KeyCode, params: &[u16])
        ensures
            final(self)@ == old(self)@.after(
                old(self)@.state.emit(seq![modified_key(code, params@)]),
            ),
            *final(final(self).state) == *final(old(self).state),
    {
        let (ctrl, alt, shift) = if params.len() > 1 {
            Self::parse_modifiers(params[1])
        } else {
            (false, false, false)
        };
        self.push_key(code, None, ctrl, alt, shift);
    }

    /// The final byte of an `ESC O` sequence: `A` to `D`, `F`, `H`, or `P` to
    /// `S`, by its number.
    pub fn handle_ss3(&mut self, byte: u8)
        ensures
            final(self)@ == old(self)@.after(old(self)@.state.emit(ss3_events(byte))),
            *final(final(self).state) == *final(old(self).state),
    {
        let code = match byte {
            0x41 => KeyCode::Up,
            0x42 => KeyCode::Down,
            0x43 => KeyCode::Right,
            0x44 => KeyCode::Left,
            0x46 => KeyCode::End,
            0x48 => KeyCode::Home,
            0x50 => KeyCode::F(1),
            0x51 => KeyCode::F(2),
            0x52 => KeyCode::F(3),
            0x53 => KeyCode::F(4),
            _ => {
                proof {
                    lemma_nothing_added(self.events.deep_view());
                }
                return ;
            },
        };
        self.push_simple_key(code);
    }

    /// An SGR mouse report; `pressed` tells a final `M` from `m`.
    pub fn handle_sgr_mouse(&mut self, params: &[u16], pressed: bool)
        ensures
            final(self)@ == old(self)@.after(
                old(self)@.state.emit(seq![mouse_event(params@, pressed)]),
            ),
            *final(final(self).state) == *final(old(self).state),
    {
        let button_flags = if params.len() > 0 {
            params[0]
        } else {
            0
        };
        let col = if params.len() > 1 {
            params[1].saturating_sub(1)
        } else {
            0
        };
        let row = if params.len() > 2 {
            params[2].saturating_sub(1)
        } else {
            0
        };

        let shift = button_flags & MOUSE_SHIFT != 0;
        let alt = button_flags & MOUSE_ALT != 0;
        let ctrl = button_flags & MOUSE_CTRL != 0;
        let is_motion = button_flags & MOUSE_MOTION != 0;
        let is_scroll = button_flags & MOUSE_SCROLL != 0;
        let is_down = button_flags & MOUSE_SCROLL_DOWN != 0;
        let low = button_flags & MOUSE_BUTTON_MASK;
        proof {
            let f = button_flags;
            assert(((f & 0x04) != 0) == ((f / 4) % 2 == 1)) by (bit_vector);
            assert(((f & 0x08) != 0) == ((f / 8) % 2 == 1)) by (bit_vector);
            assert(((f & 0x10) != 0) == ((f / 16) % 2 == 1)) by (bit_vector);
            assert(((f & 0x20) != 0) == ((f / 32) % 2 == 1)) by (bit_vector);
            assert(((f & 0x40) != 0) == ((f / 64) % 2 == 1)) by (bit_vector);
            assert(((f & 0x01) != 0) == ((f / 1) % 2 == 1)) by (bit_vector);
            assert((f & 0x03) == f % 4) by (bit_vector);
        }

        let (kind, button) = if is_scroll {
            let kind = if is_down {
                MouseKind::ScrollDown
            } else {
                MouseKind::ScrollUp
            };
            (kind, MouseButton::NoButton)
        } else {
            let button = match low {
                0 => MouseButton::Left,
                1 => MouseButton::Middle,
                2 => MouseButton::Right,
                _ => MouseButton::NoButton,
            };

            let kind = match (is_motion, pressed) {
                (true, true) => MouseKind::Drag,
                (true, false) => MouseKind::Move,
                (false, true) => MouseKind::Press,
                (false, false) => MouseKind::Release,
            };

            (kind, button)
        };

        self.events.push(Event::Mouse { kind, button, row, col, ctrl, alt, shift });
        assert(self.events.deep_view() =~= old(self).events.deep_view() + seq![
            mouse_event(params@, pressed),
        ]);
    }

    /// A Kitty keyboard report.
    pub fn handle_kitty_keyboard(&mut self, params: &[u16])
        ensures
            final(self)@ == old(self)@.after(old(self)@.state.emit(kitty_events(params@))),
            *final(final(self).state) == *final(old(self).state),
    {
        let keycode = if params.len() > 0 {
            params[0]
        } else {
            0
        };
        let (ctrl, alt, shift) = if params.len() > 1 {
            Self::parse_modifiers(params[1])
        } else {
            (false, false, false)
        };

        let (code, char) = match keycode {
            9 => (KeyCode::Tab, None),
            13 => (KeyCode::Enter, None),
            27 => (KeyCode::Escape, None),
            127 => (KeyCode::Backspace, None),
            _ => match char::from_u32(keycode as u32) {
                Some(c) => (KeyCode::Char, Some(c)),
                None => {
                    proof {
                        lemma_nothing_added(self.events.deep_view());
                    }
                    return ;
                },
            },
        };

        self.push_key(code, char, ctrl, alt, shift);
    }

    /// Writes a control sequence into the open paste as text.
    pub fn append_csi_to_paste_buffer(
        &mut self,
        params: &[u16],
        intermediates: &[u8],
        action: char,
    )
        ensures
            final(self)@ == old(self)@.after(
                old(self)@.state.paste(csi_text(params@, intermediates@, action)),
            ),
            *final(final(self).state) == *final(old(self).state),
    {
        proof {
            lemma_nothing_added(self.events.deep_view());
        }
        match &mut self.state.paste_buffer {
            Some(buf) => {
                let ghost before = buf@;
                buf.push('\x1b');
                buf.push('[');
                push_latin(buf, intermediates);
                if has_nonzero(params) {
                    push_joined(buf, params);
                }
                buf.push(action);
                assert(buf@ =~= before + csi_text(params@, intermediates@, action));
            },
            None => {},
        }
    }

    /// A character in the ground state.
    pub fn print(&mut self, c: char)
        ensures
            final(self)@ == old(self)@.after(old(self)@.state.print(c)),
            *final(final(self).state) == *final(old(self).state),
    {
        if self.state.pending_ss3 {
            self.state.pending_ss3 = false;
            let number = c as u32;
            if number < 0x80 {
                return self.handle_ss3(number as u8);
            }
            proof {
                lemma_nothing_added(self.events.deep_view());
            }
            return ;
        }
        match &mut self.state.paste_buffer {
            Some(buf) => {
                buf.push(c);
                assert(buf@ =~= old(self)@.state.paste_buffer->0 + seq![c]);
                proof {
                    lemma_nothing_added(old(self).events.deep_view());
                }
                return ;
            },
            None => {},
        }

        self.state.preceding_char = Some(c);

        let (code, char) = if c == '\x7f' {
            (KeyCode::Backspace, None)
        } else {
            (KeyCode::Char, Some(c))
        };

        self.push_key(code, char, false, false, false);
    }

    /// A control byte.
    pub fn execute(&mut self, byte: u8)
        ensures
            final(self)@ == old(self)@.after(old(self)@.state.execute(byte)),
            *final(final(self).state) == *final(old(self).state),
    {
        proof {
            lemma_nothing_added(self.events.deep_view());
        }
        match &mut self.state.paste_buffer {
            Some(buf) => {
                buf.push(byte as char);
                assert(buf@ =~= old(self)@.state.paste_buffer->0 + seq![byte as char]);
                return ;
            },
            None => {},
        }

        match byte {
            0x00 => self.push_key(KeyCode::Char, Some(' '), true, false, false),
            0x08 => self.push_simple_key(KeyCode::Backspace),
            0x09 => self.push_simple_key(KeyCode::Tab),
            0x0D => self.push_simple_key(KeyCode::Enter),
            0x01..=0x1A => {
                let c = (byte + 0x60) as char;
                self.push_key(KeyCode::Char, Some(c), true, false, false);
            },
            0x7F => self.push_simple_key(KeyCode::Backspace),
            _ => {},
        }
    }

    /// An escape sequence without a control-sequence introducer.
    pub fn esc_dispatch(&mut self, intermediates: &[u8], ignore: bool, byte: u8)
        ensures
            final(self)@ == old(self)@.after(
                old(self)@.state.esc_dispatch(intermediates@, ignore, byte),
            ),
            *final(final(self).state) == *final(old(self).state),
    {
        proof {
            lemma_nothing_added(self.events.deep_view());
        }
        if intermediates.len() != 0 {
            return ;
        }
        match byte {
            0x4F => self.state.pending_ss3 = true,
            0x20..=0x7E => {
                let c = byte as char;
                self.push_key(KeyCode::Char, Some(c), false, true, false);
            },
            _ => {},
        }
    }

    /// A complete control sequence: `params` holds its parameters, each with
    /// its sub-parameters.
    pub fn csi_dispatch(
        &mut self,
        params: &[Vec<u16>],
        intermediates: &[u8],
        ignore: bool,
        action: char,
    )
        ensures
            final(self)@ == old(self)@.after(
                old(self)@.state.csi_dispatch(params.deep_view(), intermediates@, ignore, action),
            ),
            *final(final(self).state) == *final(old(self).state),
    {
        let flat = flatten(params);
        let params = flat.as_slice();
        proof {
            lemma_nothing_added(self.events.deep_view());
        }

        if action == '~' && intermediates.len() == 0 && params.len() > 0 && params[0] == 201 {
            match self.state.paste_buffer.take() {
                Some(content) => {
                    self.events.push(Event::Paste(content));
                    assert(self.events.deep_view() =~= old(self).events.deep_view() + seq![
                        EventView::Paste(content@),
                    ]);
                },
                None => {},
            }
            return ;
        }

        if self.state.paste_buffer.is_some() {
            self.append_csi_to_paste_buffer(params, intermediates, action);
            return ;
        }

        if ignore || intermediates.len() > 2 {
            return ;
        }

        if intermediates.len() == 0 {
            match action {
                'A' => self.push_key_with_modifiers(KeyCode::Up, params),
                'B' => self.push_key_with_modifiers(KeyCode::Down, params),
                'C' => self.push_key_with_modifiers(KeyCode::Right, params),
                'D' => self.push_key_with_modifiers(KeyCode::Left, params),
                'F' => self.push_key_with_modifiers(KeyCode::End, params),
                'H' => self.push_key_with_modifiers(KeyCode::Home, params),
                'Z' => self.push_key(KeyCode::Tab, None, false, false, true),
                'I' => self.push_focus(true),
                'O' => self.push_focus(false),
                'u' => self.handle_kitty_keyboard(params),
                'b' => {
                    let c = match self.state.preceding_char {
                        Some(c) => c,
                        None => {
                            return ;
                        },
                    };
                    let first = if params.len() > 0 {
                        params[0]
                    } else {
                        1
                    };
                    let count = if first > 1 {
                        first
                    } else {
                        1
                    };
                    let mut done: u16 = 0;
                    while done < count
                        invariant
                            done <= count,
                            self@ == old(self)@.after(
                                old(self)@.state.emit(
                                    Seq::new(
                                        done as nat,
                                        |i: int| EventView::plain_key(KeyCode::Char, Some(c)),
                                    ),
                                ),
                            ),
                            *final(self.state) == *final(old(self).state),
                        decreases count - done,
                    {
                        self.push_key(KeyCode::Char, Some(c), false, false, false);
                        done += 1;
                        assert(self@.events =~= old(self)@.events + Seq::new(
                            done as nat,
                            |i: int| EventView::plain_key(KeyCode::Char, Some(c)),
                        ));
                    }
                },
                '~' => {
                    let key_num = if params.len() > 0 {
                        params[0]
                    } else {
                        0
                    };
                    match key_num {
                        1 | 7 => self.push_key_with_modifiers(KeyCode::Home, params),
                        2 => self.push_key_with_modifiers(KeyCode::Insert, params),
                        3 => self.push_key_with_modifiers(KeyCode::Delete, params),
                        4 | 8 => self.push_key_with_modifiers(KeyCode::End, params),
                        5 => self.push_key_with_modifiers(KeyCode::PageUp, params),
                        6 => self.push_key_with_modifiers(KeyCode::PageDown, params),
                        15 => self.push_key_with_modifiers(KeyCode::F(5), params),
                        17 => self.push_key_with_modifiers(KeyCode::F(6), params),
                        18 => self.push_key_with_modifiers(KeyCode::F(7), params),
                        19 => self.push_key_with_modifiers(KeyCode::F(8), params),
                        20 => self.push_key_with_modifiers(KeyCode::F(9), params),
                        21 => self.push_key_with_modifiers(KeyCode::F(10), params),
                        23 => self.push_key_with_modifiers(KeyCode::F(11), params),
                        24 => self.push_key_with_modifiers(KeyCode::F(12), params),
                        200 => {
                            self.state.paste_buffer = Some(String::new());
                        },
                        _ => {},
                    }
                },
                _ => {},
            }
        } else if intermediates.len() == 1 && intermediates[0] == 0x3C && (action == 'M' || action
            == 'm') {
            self.handle_sgr_mouse(params, action == 'M');
        }
    }

    /// Adds one focus event.
    fn push_focus(&mut self, focused: bool)
        ensures
            final(self)@ == old(self)@.after(
                old(self)@.state.emit(seq![EventView::Focus(focused)]),
            ),
            *final(final(self).state) == *final(old(self).state),
    {
        self.events.push(Event::Focus(focused));
        assert(self.events.deep_view() =~= old(self).events.deep_view() + seq![
            EventView::Focus(focused),
        ]);
    }

    /// One callback of the classifier.
    pub fn perform(&mut self, token: &Token)
        ensures
            final(self)@ == old(self)@.after(old(self)@.state.perform(token@)),
            *final(final(self).state) == *final(old(self).state),
    {
        match token {
            Token::Print(c) => self.print(*c),
            Token::Execute(byte) => self.execute(*byte),
            Token::Csi { params, intermediates, ignore, action } => self.csi_dispatch(
                params.as_slice(),
                intermediates.as_slice(),
                *ignore,
                *action,
            ),
            Token::Esc { intermediates, ignore, byte } => self.esc_dispatch(
                intermediates.as_slice(),
                *ignore,
                *byte,
            ),
        }
    }

    /// A run of callbacks, in order.
    pub fn perform_all(&mut self, tokens: &[Token])
        ensures
            final(self)@ == old(self)@.after(old(self)@.state.perform_all(tokens.deep_view())),
            *final(final(self).state) == *final(old(self).state),
    {
        let mut i: usize = 0;
        proof {
            assert(tokens.deep_view().take(0) =~= Seq::<TokenView>::empty());
            lemma_nothing_added(self@.events);
        }
        while i < tokens.len()
            invariant
                0 <= i <= tokens.len(),
                self@ == old(self)@.after(
                    old(self)@.state.perform_all(tokens.deep_view().take(i as int)),
                ),
                *final(self.state) == *final(old(self).state),
            decreases tokens.len() - i,
        {
            let ghost before = old(self)@.state.perform_all(tokens.deep_view().take(i as int));
            self.perform(&tokens[i]);
            proof {
                let now = tokens.deep_view().take(i + 1);
                assert(now.drop_last() =~= tokens.deep_view().take(i as int));
                assert(now.last() == tokens[i as int]@);
                let last = before.state.perform(now.last());
                assert(self@.events =~= old(self)@.events + (before.events + last.events));
            }
            i += 1;
        }
        proof {
            assert(tokens.deep_view().take(i as int) =~= tokens.deep_view());
        }
    }
}

/// The parameters and sub-parameters in one row, in order.
pub fn flatten(groups: &[Vec<u16>]) -> (flat: Vec<u16>)
    ensures
        flat@ == flattened(groups.deep_view()),
{
    let mut flat: Vec<u16> = Vec::new();
    let mut i: usize = 0;
    proof {
        assert(groups.deep_view().take(0) =~= Seq::<Seq<u16>>::empty());
    }
    while i < groups.len()
        invariant
            0 <= i <= groups.len(),
            flat@ == flattened(groups.deep_view().take(i as int)),
        decreases groups.len() - i,
    {
        let group = &groups[i];
        let ghost before = flat@;
        let mut j: usize = 0;
        while j < group.len()
            invariant
                0 <= j <= group.len(),
                flat@ == before + group@.take(j as int),
            decreases group.len() - j,
        {
            flat.push(group[j]);
            proof {
                assert(group@.take(j + 1) =~= group@.take(j as int).push(group[j as int]));
                assert(flat@ =~= before + group@.take(j + 1));
            }
            j += 1;
        }
        proof {
            assert(group@.take(j as int) =~= group@);
            let now = groups.deep_view().take(i + 1);
            assert(now.drop_last() =~= groups.deep_view().take(i as int));
            assert(now.last() =~= group@);
        }
        i += 1;
    }
    proof {
        assert(groups.deep_view().take(i as int) =~= groups.deep_view());
    }
    flat
}

} // verus!
