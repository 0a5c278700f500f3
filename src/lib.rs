//! The dialogue engine of a chat bot that collects map entries: a per-user
//! state machine, the store of dialogues in progress, and the sweep that
//! cancels idle dialogues.

pub mod escape;
pub mod session;
pub mod store;
pub mod reaper;
pub mod dialogue;
pub mod laws;
