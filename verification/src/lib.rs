//! Core logic of a listening-comprehension trainer: a clip is chosen at
//! random from a directory, played, and the user types the character or word
//! it stands for; wrong answers trigger up to three automatic replays.
//!
//! The crate holds the playback/answer state machine, the countdown timers,
//! the answer evaluator, the sound selector and the input buffer.  Audio
//! output, rendering and raw input delivery are external collaborators: the
//! state machine only emits requests towards them.

pub mod evaluator;
pub mod selector;
pub mod session;
pub mod text;
pub mod timer;
