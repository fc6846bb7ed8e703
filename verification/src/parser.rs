//! The parser that a host feeds with bytes and flushes when input stops.

use vstd::prelude::*;
use crate::classifier::{advanced, classify, emitted, is_initial, new_classifier};
use crate::event::{Event, EventView, KeyCode};
use crate::model::StateView;
use crate::performer::{Performer, PerformerState};
use crate::token::{Token, TokenView};

verus! {

/// A streaming parser of terminal input.
pub struct NativeParser {
    inner: vte::Parser,
    state: PerformerState,
    pending_esc: bool,
}

/// A parser as a mathematical value.
pub struct ParserView {
    /// The classifier, of which only its trusted names speak.
    pub classifier: vte::Parser,
    /// What the performer remembers.
    pub state: StateView,
    /// Whether a trailing escape waits to be told apart.
    pub pending_esc: bool,
}

/// What one call of `parse` does: the parser it leaves and the events it
/// returns.
pub struct Parsed {
    pub parser: ParserView,
    pub events: Seq<EventView>,
}

/// Whether the input ends in the escape byte.
pub open spec fn ends_with_escape(input: Seq<u8>) -> bool {
    input.len() > 0 && input.last() == 0x1B
}

impl ParserView {
    /// The parser after the callbacks `tokens`, made for an input that ends
    /// in the escape byte or not. The escape is pending where the input ends
    /// in it and gave no event, or where `ESC O` waits for its final byte.
    pub open spec fn parse_tokens(self, tokens: Seq<TokenView>, ends_with_esc: bool) -> Parsed {
        let step = self.state.perform_all(tokens);
        Parsed {
            parser: ParserView {
                classifier: self.classifier,
                state: step.state,
                pending_esc: (ends_with_esc && step.events.len() == 0) || step.state.pending_ss3,
            },
            events: step.events,
        }
    }

    /// The parser after `input`: the classifier moves on, and the callbacks
    /// that it made are performed.
    pub open spec fn parse(self, input: Seq<u8>) -> Parsed {
        let performed = self.parse_tokens(
            emitted(self.classifier, input),
            ends_with_escape(input),
        );
        Parsed {
            parser: ParserView {
                classifier: advanced(self.classifier, input),
                ..performed.parser
            },
            events: performed.events,
        }
    }

    /// The events of a flush: the escape key where an escape is pending.
    pub open spec fn flush_events(self) -> Seq<EventView> {
        if self.pending_esc {
            seq![EventView::plain_key(KeyCode::Escape, None)]
        } else {
            Seq::empty()
        }
    }

    /// Whether `after` is this parser flushed. Where an escape is pending
    /// the classifier starts afresh and `ESC O` is forgotten; the open paste
    /// and the preceding character stay. Else nothing changes.
    pub open spec fn flushes_to(self, after: ParserView) -> bool {
        if self.pending_esc {
            &&& is_initial(after.classifier)
            &&& after.state == (StateView { pending_ss3: false, ..self.state })
            &&& !after.pending_esc
        } else {
            after == self
        }
    }
}

impl View for NativeParser {
    type V = ParserView;

    closed spec fn view(&self) -> ParserView {
        ParserView { classifier: self.inner, state: self.state@, pending_esc: self.pending_esc }
    }
}

impl NativeParser {
    /// A parser that has seen nothing.
    pub fn new() -> (parser: NativeParser)
        ensures
            is_initial(parser@.classifier),
            parser@.state == StateView::initial(),
            !parser@.pending_esc,
    {
        NativeParser { inner: new_classifier(), state: PerformerState::default(), pending_esc: false }
    }

    /// Feeds `input` to the parser and returns the events that it completes.
    pub fn parse(&mut self, input: &[u8]) -> (events: Vec<Event>)
        ensures
            events.deep_view() == old(self)@.parse(input@).events,
            final(self)@ == old(self)@.parse(input@).parser,
    {
        let tokens = classify(&mut self.inner, input);
        let ends_with_esc = input.len() > 0 && input[input.len() - 1] == 0x1B;
        self.parse_tokens(tokens.as_slice(), ends_with_esc)
    }

    /// Performs callbacks that the classifier made for an input of which
    /// `ends_with_esc` tells whether it ends in the escape byte.
    pub fn parse_tokens(&mut self, tokens: &[Token], ends_with_esc: bool) -> (events: Vec<Event>)
        ensures
            events.deep_view() == old(self)@.parse_tokens(tokens.deep_view(), ends_with_esc).events,
            final(self)@ == old(self)@.parse_tokens(tokens.deep_view(), ends_with_esc).parser,
    {
        let mut performer = Performer::new(&mut self.state);
        performer.perform_all(tokens);
        let events = performer.events;
        proof {
            assert(Seq::<EventView>::empty() + old(self)@.state.perform_all(
                tokens.deep_view(),
            ).events =~= old(self)@.state.perform_all(tokens.deep_view()).events);
        }

        let produced_events = events.len() > 0;
        self.pending_esc = (ends_with_esc && !produced_events) || self.state.pending_ss3;
        events
    }

    /// Whether an escape waits to be told apart: it may be the escape key,
    /// or the start of a sequence that the next input completes.
    pub fn pending(&self) -> (pending: bool)
        ensures
            pending == self@.pending_esc,
    {
        self.pending_esc
    }

    /// Settles a pending escape as the escape key.
    pub fn flush(&mut self) -> (events: Vec<Event>)
        ensures
            events.deep_view() == old(self)@.flush_events(),
            old(self)@.flushes_to(final(self)@),
    {
        let mut events: Vec<Event> = Vec::new();
        if self.pending() {
            self.pending_esc = false;
            self.inner = new_classifier();
            self.state.pending_ss3 = false;

            events.push(
                Event::Key {
                    code: KeyCode::Escape,
                    char: None,
                    ctrl: false,
                    alt: false,
                    shift: false,
                },
            );
        }
        assert(events.deep_view() =~= old(self)@.flush_events());
        events
    }
}

} // verus!
