//! The boundary to `vte`, the byte classifier.
//!
//! Nothing in this file is proved of `vte` itself: the contracts of
//! [`new_classifier`], [`classify`] and [`groups_of`] are taken on trust
//! from its source. They give names to what the classifier does and claim
//! no more than that it does the same on the same input.

use vstd::prelude::*;
use crate::token::{Token, TokenView};

verus! {

/// `vte::Parser`, the state machine that classifies bytes. Its inside is
/// not visible here.
#[verifier::external_type_specification]
#[verifier::external_body]
pub struct ExClassifier<const OSC_RAW_BUF_SIZE: usize>(vte::Parser<OSC_RAW_BUF_SIZE>);

/// `vte::Params`, the parameters that the classifier hands to a control
/// sequence's callback.
#[verifier::external_type_specification]
#[verifier::external_body]
pub struct ExParams(vte::Params);

/// Whether the classifier is as `vte::Parser::new` makes it.
pub uninterp spec fn is_initial(classifier: vte::Parser) -> bool;

/// The callbacks that `vte::Parser::advance` makes for `bytes` when the
/// classifier is in the given state, in order. Of the callbacks only print,
/// execute, CSI dispatch and ESC dispatch count.
pub uninterp spec fn emitted(classifier: vte::Parser, bytes: Seq<u8>) -> Seq<TokenView>;

/// The state in which `vte::Parser::advance` leaves the classifier after
/// `bytes`.
pub uninterp spec fn advanced(classifier: vte::Parser, bytes: Seq<u8>) -> vte::Parser;

/// What `vte::Params::iter` walks through: the parameters in order, each
/// as the row of its sub-parameters.
pub uninterp spec fn param_groups(params: vte::Params) -> Seq<Seq<u16>>;

/// Calls `vte::Parser::new`. The contract only names the state that it
/// returns.
#[verifier::external_body]
pub(crate) fn new_classifier() -> (classifier: vte::Parser)
    ensures
        is_initial(classifier),
{
    vte::Parser::new()
}

/// Calls `vte::Params::iter` and copies each parameter's sub-parameters.
/// The contract names what the iterator yields.
#[verifier::external_body]
fn groups_of(params: &vte::Params) -> (groups: Vec<Vec<u16>>)
    ensures
        groups.deep_view() == param_groups(*params),
{
    params.iter().map(|group| group.to_vec()).collect()
}

/// Calls `vte::Parser::advance` with a performer that records the callbacks.
/// The contract names the callbacks made and the state left: it claims that
/// both depend on the classifier's state and the bytes alone, and that the
/// call returns for every input.
#[verifier::external_body]
pub(crate) fn classify(classifier: &mut vte::Parser, bytes: &[u8]) -> (tokens: Vec<Token>)
    ensures
        tokens.deep_view() == emitted(*old(classifier), bytes@),
        *final(classifier) == advanced(*old(classifier), bytes@),
{
    let mut recorder = Recorder { tokens: Vec::new() };
    classifier.advance(&mut recorder, bytes);
    recorder.tokens
}

/// Keeps the callbacks of one call of `advance`, in order.
pub struct Recorder {
    pub tokens: Vec<Token>,
}

impl Recorder {
    /// Keeps one more callback.
    fn record(&mut self, token: Token)
        ensures
            final(self).tokens.deep_view() == old(self).tokens.deep_view().push(token@),
    {
        self.tokens.push(token);
        assert(self.tokens.deep_view() =~= old(self).tokens.deep_view().push(token@));
    }
}

impl vte::Perform for Recorder {
    fn print(&mut self, c: char)
        ensures
            final(self).tokens.deep_view() == old(self).tokens.deep_view().push(
                TokenView::Print(c),
            ),
    {
        self.record(Token::Print(c));
    }

    fn execute(&mut self, byte: u8)
        ensures
            final(self).tokens.deep_view() == old(self).tokens.deep_view().push(
                TokenView::Execute(byte),
            ),
    {
        self.record(Token::Execute(byte));
    }

    fn csi_dispatch(
        &mut self,
        params: &vte::Params,
        intermediates: &[u8],
        ignore: bool,
        action: char,
    )
        ensures
            final(self).tokens.deep_view() == old(self).tokens.deep_view().push(
                TokenView::Csi {
                    params: param_groups(*params),
                    intermediates: intermediates@,
                    ignore,
                    action,
                },
            ),
    {
        let params = groups_of(params);
        let intermediates = vstd::slice::slice_to_vec(intermediates);
        self.record(Token::Csi { params, intermediates, ignore, action });
    }

    fn esc_dispatch(&mut self, intermediates: &[u8], ignore: bool, byte: u8)
        ensures
            final(self).tokens.deep_view() == old(self).tokens.deep_view().push(
                TokenView::Esc { intermediates: intermediates@, ignore, byte },
            ),
    {
        let intermediates = vstd::slice::slice_to_vec(intermediates);
        self.record(Token::Esc { intermediates, ignore, byte });
    }

    fn hook(&mut self, params: &vte::Params, intermediates: &[u8], ignore: bool, action: char)
        ensures
            *final(self) == *old(self),
    {
    }

    fn put(&mut self, byte: u8)
        ensures
            *final(self) == *old(self),
    {
    }

    fn unhook(&mut self)
        ensures
            *final(self) == *old(self),
    {
    }

    fn osc_dispatch(&mut self, params: &[&[u8]], bell_terminated: bool)
        ensures
            *final(self) == *old(self),
    {
    }
}

} // verus!
