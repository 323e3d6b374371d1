//! Core engine of a terminal typing drill: a word list to type, a
//! keystroke-matching cursor, live statistics, a countdown timer, and the
//! words-per-minute report at the end. Input capture and rendering live
//! outside this crate; the engine is a pure, verified state machine.
use vstd::prelude::*;

pub mod engine;
pub mod laws;
pub mod stats;
pub mod timer;
pub mod ui;
pub mod words;
pub mod wpm;

verus! {

/// Errors the engine can report.
///
/// `Config` means the session could not be created (zero words requested or a
/// non-positive timeout). `InvalidState` means a caller asked for the final
/// result before the session was finished.
#[derive(Clone, Copy, Debug, PartialEq, Eq, Structural)]
pub enum SessionError {
    Config,
    InvalidState,
}

/// Immutable per-session settings, fixed before the session starts.
#[derive(Clone, Copy, Debug, PartialEq, Eq, Structural)]
pub struct SessionConfig {
    /// Countdown length in seconds; must be at least 1.
    pub timeout_seconds: u64,
    /// Number of words to present; must be at least 1.
    pub word_count: usize,
    /// Whether the caller wants audible feedback (the engine itself never
    /// plays sound; this flag is carried for the presentation layer).
    pub sound_enabled: bool,
}

impl SessionConfig {
    /// A configuration is valid when it asks for at least one word and a
    /// countdown of at least one second.
    pub open spec fn valid(self) -> bool {
        self.timeout_seconds >= 1 && self.word_count >= 1
    }
}

} // verus!
