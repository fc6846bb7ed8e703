//! What holds of every input, proved from the decoding rules.

use vstd::prelude::*;
use crate::classifier::{advanced, emitted};
use crate::event::{EventView, KeyCode};
use crate::model::{closes_paste, csi_text, flattened, mouse_event, param_or, StateView};
use crate::parser::{ends_with_escape, ParserView};
use crate::performer::lemma_nothing_added;
use crate::token::TokenView;

verus! {

/// Callbacks performed in two runs do what they do in one: the second run
/// starts from the state that the first one leaves, and its events follow
/// those of the first.
pub proof fn lemma_perform_all_concat(
    state: StateView,
    first: Seq<TokenView>,
    second: Seq<TokenView>,
)
    ensures
        state.perform_all(first + second).state == state.perform_all(first).state.perform_all(
            second,
        ).state,
        state.perform_all(first + second).events == state.perform_all(first).events
            + state.perform_all(first).state.perform_all(second).events,
    decreases second.len(),
{
    let middle = state.perform_all(first).state;
    if second.len() == 0 {
        assert(first + second =~= first);
        lemma_nothing_added(state.perform_all(first).events);
    } else {
        assert((first + second).drop_last() =~= first + second.drop_last());
        assert((first + second).last() == second.last());
        lemma_perform_all_concat(state, first, second.drop_last());
        let head = state.perform_all(first).events;
        let body = middle.perform_all(second.drop_last());
        let last = body.state.perform(second.last());
        assert(state.perform_all(first + second).events =~= head + (body.events + last.events));
    }
}

/// A run of one callback does what the callback does.
pub proof fn lemma_perform_all_one(state: StateView, token: TokenView)
    ensures
        state.perform_all(seq![token]) == state.perform(token),
{
    let run = seq![token];
    assert(run.drop_last() =~= Seq::<TokenView>::empty());
    assert(run.last() == token);
    assert(state.perform_all(run.drop_last()) == state.quiet());
    assert(Seq::<EventView>::empty() + state.perform(token).events =~= state.perform(
        token,
    ).events);
}

/// An input fed in two parts gives the events that it gives when fed whole,
/// and leaves the performer in the same state, wherever the classifier
/// makes the same callbacks for the two parts as for the whole.
pub proof fn lemma_parse_split(parser: ParserView, first: Seq<u8>, second: Seq<u8>)
    requires
        emitted(parser.classifier, first + second) == emitted(parser.classifier, first) + emitted(
            advanced(parser.classifier, first),
            second,
        ),
    ensures
        parser.parse(first + second).events == parser.parse(first).events + parser.parse(
            first,
        ).parser.parse(second).events,
        parser.parse(first + second).parser.state == parser.parse(first).parser.parse(
            second,
        ).parser.state,
{
    lemma_perform_all_concat(
        parser.state,
        emitted(parser.classifier, first),
        emitted(advanced(parser.classifier, first), second),
    );
}

/// An input that ends in the escape byte and gives no event leaves an
/// escape pending; a flush then gives the escape key, once, and nothing
/// is pending after it.
pub proof fn lemma_trailing_escape(parser: ParserView, input: Seq<u8>, flushed: ParserView)
    requires
        ends_with_escape(input),
        parser.parse(input).events.len() == 0,
        parser.parse(input).parser.flushes_to(flushed),
    ensures
        parser.parse(input).parser.pending_esc,
        parser.parse(input).parser.flush_events() == seq![
            EventView::plain_key(KeyCode::Escape, None),
        ],
        !flushed.pending_esc,
        flushed.flush_events() == Seq::<EventView>::empty(),
{
}

/// The row and the column of a mouse event are the numbers on the wire less
/// one, and zero where the wire has zero or nothing: never below zero.
pub proof fn lemma_mouse_position(params: Seq<u16>, pressed: bool)
    ensures
        mouse_event(params, pressed) is Mouse,
        mouse_event(params, pressed)->row >= 0,
        mouse_event(params, pressed)->col >= 0,
        param_or(params, 2, 0) >= 1 ==> mouse_event(params, pressed)->row == param_or(
            params,
            2,
            0,
        ) - 1,
        param_or(params, 1, 0) >= 1 ==> mouse_event(params, pressed)->col == param_or(
            params,
            1,
            0,
        ) - 1,
{
}

/// The text that a callback adds to an open paste. A control sequence is
/// written out again; an escape sequence adds nothing.
pub open spec fn pasted_text(token: TokenView) -> Seq<char> {
    match token {
        TokenView::Print(c) => seq![c],
        TokenView::Execute(byte) => seq![byte as char],
        TokenView::Csi { params, intermediates, ignore, action } => csi_text(
            flattened(params),
            intermediates,
            action,
        ),
        TokenView::Esc { intermediates, ignore, byte } => Seq::empty(),
    }
}

/// The text that a run of callbacks adds to an open paste.
pub open spec fn pasted_texts(tokens: Seq<TokenView>) -> Seq<char>
    decreases tokens.len(),
{
    if tokens.len() == 0 {
        Seq::empty()
    } else {
        pasted_texts(tokens.drop_last()) + pasted_text(tokens.last())
    }
}

/// Whether a callback opens a paste: `CSI 200 ~`, read in full.
pub open spec fn opens_paste(token: TokenView) -> bool {
    match token {
        TokenView::Csi { params, intermediates, ignore, action } => {
            &&& action == '~'
            &&& intermediates.len() == 0
            &&& !ignore
            &&& param_or(flattened(params), 0, 0) == 200
        },
        _ => false,
    }
}

/// Whether a callback ends a paste: `CSI 201 ~`.
pub open spec fn ends_paste(token: TokenView) -> bool {
    match token {
        TokenView::Csi { params, intermediates, ignore, action } => closes_paste(
            flattened(params),
            intermediates,
            action,
        ),
        _ => false,
    }
}

/// Whether a callback is read as a key even while a paste is open: an
/// escape sequence without intermediates whose final byte is printable.
pub open spec fn escapes_paste(token: TokenView) -> bool {
    match token {
        TokenView::Esc { intermediates, ignore, byte } => intermediates.len() == 0 && 0x20 <= byte
            <= 0x7E,
        _ => false,
    }
}

/// Whether a run of callbacks stays inside a paste: none ends it and none
/// is read as a key.
pub open spec fn stays_in_paste(tokens: Seq<TokenView>) -> bool {
    forall|i: int| 0 <= i < tokens.len() ==> !ends_paste(#[trigger] tokens[i]) && !escapes_paste(
        tokens[i],
    )
}

/// While a paste is open, callbacks that stay inside it give no event and
/// only add their text to the paste.
pub proof fn lemma_paste_accumulates(state: StateView, tokens: Seq<TokenView>)
    requires
        state.paste_buffer is Some,
        !state.pending_ss3,
        stays_in_paste(tokens),
    ensures
        state.perform_all(tokens).events == Seq::<EventView>::empty(),
        state.perform_all(tokens).state == (StateView {
            paste_buffer: Some(state.paste_buffer->0 + pasted_texts(tokens)),
            ..state
        }),
    decreases tokens.len(),
{
    let content = state.paste_buffer->0;
    if tokens.len() == 0 {
        assert(content + pasted_texts(tokens) =~= content);
    } else {
        let earlier = tokens.drop_last();
        assert(stays_in_paste(earlier)) by {
            assert forall|i: int| 0 <= i < earlier.len() implies !ends_paste(
                #[trigger] earlier[i],
            ) && !escapes_paste(earlier[i]) by {
                assert(earlier[i] == tokens[i]);
            }
        }
        lemma_paste_accumulates(state, earlier);
        let token = tokens.last();
        assert(token == tokens[tokens.len() - 1]);
        let before = state.perform_all(earlier);
        let last = before.state.perform(token);
        assert(last.events == Seq::<EventView>::empty());
        assert(last.state.paste_buffer == Some(
            content + pasted_texts(earlier) + pasted_text(token),
        ));
        assert(content + pasted_texts(earlier) + pasted_text(token) =~= content + pasted_texts(
            tokens,
        ));
        assert(before.events + last.events =~= Seq::<EventView>::empty());
    }
}

/// The end of a paste gives the text of the paste as one event and closes
/// the paste.
pub proof fn lemma_paste_ends(state: StateView, close: TokenView)
    requires
        state.paste_buffer is Some,
        !state.pending_ss3,
        ends_paste(close),
    ensures
        state.perform(close).events == seq![EventView::Paste(state.paste_buffer->0)],
        state.perform(close).state == (StateView { paste_buffer: None, ..state }),
{
}

/// A bracketed paste, from its opening sequence to its closing one, gives
/// one event and no other: the text of all that came between, as long as
/// that stays inside the paste.
pub proof fn lemma_bracketed_paste(
    state: StateView,
    open: TokenView,
    tokens: Seq<TokenView>,
    close: TokenView,
)
    requires
        state.paste_buffer is None,
        !state.pending_ss3,
        opens_paste(open),
        stays_in_paste(tokens),
        ends_paste(close),
    ensures
        state.perform_all(seq![open] + tokens + seq![close]).events == seq![
            EventView::Paste(pasted_texts(tokens)),
        ],
        state.perform_all(seq![open] + tokens + seq![close]).state == state,
{
    let opened = StateView { paste_buffer: Some(Seq::<char>::empty()), ..state };
    lemma_perform_all_one(state, open);
    assert(state.perform(open) == opened.quiet());
    lemma_paste_accumulates(opened, tokens);
    lemma_perform_all_concat(state, seq![open], tokens);
    let filled = StateView { paste_buffer: Some(pasted_texts(tokens)), ..state };
    assert(Seq::<char>::empty() + pasted_texts(tokens) =~= pasted_texts(tokens));
    assert(state.perform_all(seq![open] + tokens).state == filled);
    assert(state.perform_all(seq![open] + tokens).events =~= Seq::<EventView>::empty());
    lemma_paste_ends(filled, close);
    lemma_perform_all_one(filled, close);
    lemma_perform_all_concat(state, seq![open] + tokens, seq![close]);
    assert(Seq::<EventView>::empty() + seq![EventView::Paste(pasted_texts(tokens))] =~= seq![
        EventView::Paste(pasted_texts(tokens)),
    ]);
}

/// Every event that a callback gives is well formed: a key carries a
/// character exactly when its code is `Char`, and a scroll names no button.
pub proof fn lemma_perform_well_formed(state: StateView, token: TokenView)
    ensures
        forall|i: int|
            0 <= i < state.perform(token).events.len() ==> (
            #[trigger] state.perform(token).events[i]).well_formed(),
{
}

/// Every event of a run of callbacks is well formed.
pub proof fn lemma_events_well_formed(state: StateView, tokens: Seq<TokenView>)
    ensures
        forall|i: int|
            0 <= i < state.perform_all(tokens).events.len() ==> (
            #[trigger] state.perform_all(tokens).events[i]).well_formed(),
    decreases tokens.len(),
{
    if tokens.len() > 0 {
        let before = state.perform_all(tokens.drop_last());
        lemma_events_well_formed(state, tokens.drop_last());
        lemma_perform_well_formed(before.state, tokens.last());
    }
}

} // verus!
