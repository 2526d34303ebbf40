//! Core of a single-document text-editing session: snapshot-based undo/redo,
//! incremental find/replace, a time-limited elevated-write credential cache,
//! and the session state machine that ties them together.
//!
//! The surrounding user interface is expected to forward text-changed events
//! and user commands into [`session::DocumentSession`] and to carry out the
//! instructions (prompts, buffer replacements, file writes) that the session
//! hands back. The session itself never performs I/O.

pub mod credential;
pub mod history;
pub mod laws;
pub mod persist;
pub mod search;
pub mod session;
pub mod stats;
pub mod viewport;
