//! Message-driven dispatch and finite-state-machine framework for an
//! interactive vector-graphics editor, with the Select tool as the worked-out
//! exemplar.
//!
//! Raw user input (pointer moves, clicks, key presses) and document-change
//! notifications are turned into typed messages.  A queue orders them, a
//! dispatcher drains the queue to quiescence, and each tool is an independent
//! finite-state machine that consumes tool-scoped messages and emits further
//! messages describing document mutations, transaction boundaries, overlay
//! updates and UI refresh requests.
//!
//! The document itself, hit testing, snapping geometry and rendering are
//! external collaborators; they appear here as a plain-value model
//! ([`document::DocumentModel`]) consumed through narrow contracts, with
//! viewport coordinates as bounded integers.

pub mod geometry;
pub mod messages;
pub mod queue;
pub mod document;
pub mod overlays;
pub mod select_tool;
pub mod widgets;
pub mod fsm;
pub mod dispatcher;
