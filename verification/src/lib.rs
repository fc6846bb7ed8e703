//! A streaming decoder for terminal input.
//!
//! Bytes read from a terminal are classified into control-sequence callbacks
//! by the `vte` state machine; this crate interprets those callbacks as key
//! presses, mouse actions, bracketed pastes and focus changes.
//!
//! * [`event`] holds the events that come out.
//! * [`token`] holds the classifier's callbacks as plain values.
//! * [`classifier`] is the boundary to `vte`.
//! * [`performer`] interprets one callback at a time.
//! * [`parser`] is the instance that a host feeds and flushes.
//! * [`laws`] states what holds of every input.

pub mod text;
pub mod event;
pub mod token;
pub mod model;
pub mod classifier;
pub mod performer;
pub mod parser;
pub mod laws;
