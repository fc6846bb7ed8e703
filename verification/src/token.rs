//! The classifier's callbacks as plain values.

use vstd::prelude::*;

verus! {

/// One callback of the byte classifier.
#[derive(Debug, Clone, PartialEq, Eq)]
pub enum Token {
    /// A character to print, seen in the ground state.
    Print(char),
    /// A control byte to execute.
    Execute(u8),
    /// A complete control sequence: its parameters, each with its
    /// sub-parameters, the intermediate bytes, whether the classifier ran
    /// over one of its limits, and the final byte.
    Csi { params: Vec<Vec<u16>>, intermediates: Vec<u8>, ignore: bool, action: char },
    /// A complete escape sequence without a control-sequence introducer.
    Esc { intermediates: Vec<u8>, ignore: bool, byte: u8 },
}

/// A callback as a mathematical value.
pub enum TokenView {
    Print(char),
    Execute(u8),
    Csi { params: Seq<Seq<u16>>, intermediates: Seq<u8>, ignore: bool, action: char },
    Esc { intermediates: Seq<u8>, ignore: bool, byte: u8 },
}

impl View for Token {
    type V = TokenView;

    open spec fn view(&self) -> TokenView {
        match *self {
            Token::Print(c) => TokenView::Print(c),
            Token::Execute(byte) => TokenView::Execute(byte),
            Token::Csi { params, intermediates, ignore, action } => TokenView::Csi {
                params: params.deep_view(),
                intermediates: intermediates@,
                ignore,
                action,
            },
            Token::Esc { intermediates, ignore, byte } => TokenView::Esc {
                intermediates: intermediates@,
                ignore,
                byte,
            },
        }
    }
}

impl DeepView for Token {
    type V = TokenView;

    open spec fn deep_view(&self) -> TokenView {
        self@
    }
}

} // verus!
