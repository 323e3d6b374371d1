//! Live statistics of a typing session: how many characters were typed
//! correctly and how many keystrokes missed. Pure counters, no time
//! dependency; a new session creates a new counter.
use vstd::prelude::*;

verus! {

/// A point-in-time copy of the counters, safe to hand to a rendering layer.
#[derive(Clone, Copy, Debug, PartialEq, Eq, Structural)]
pub struct Stats {
    /// Keystrokes that matched the expected character.
    pub typed_chars: u64,
    /// Keystrokes that did not match the expected character.
    pub misses: u64,
}

/// Accumulates the two counters. Each recording call increments exactly one
/// counter by exactly one; both are monotonically non-decreasing over the
/// session's life.
pub struct StatsCounter {
    typed_chars: u64,
    misses: u64,
}

impl StatsCounter {
    /// Correct keystrokes recorded so far.
    pub closed spec fn typed_chars(self) -> u64 {
        self.typed_chars
    }

    /// Missed keystrokes recorded so far.
    pub closed spec fn misses(self) -> u64 {
        self.misses
    }

    /// A fresh counter with both counts at zero.
    pub fn new() -> (c: StatsCounter)
        ensures
            c.typed_chars() == 0,
            c.misses() == 0,
    {
        StatsCounter { typed_chars: 0, misses: 0 }
    }

    /// Records one correct keystroke: the typed-character count grows by one
    /// and the miss count is untouched.
    pub fn record_correct_char(&mut self)
        requires
            old(self).typed_chars() < u64::MAX,
        ensures
            final(self).typed_chars() == old(self).typed_chars() + 1,
            final(self).misses() == old(self).misses(),
    {
        self.typed_chars = self.typed_chars + 1;
    }

    /// Records one missed keystroke: the miss count grows by one and the
    /// typed-character count is untouched.
    pub fn record_incorrect_char(&mut self)
        requires
            old(self).misses() < u64::MAX,
        ensures
            final(self).misses() == old(self).misses() + 1,
            final(self).typed_chars() == old(self).typed_chars(),
    {
        self.misses = self.misses + 1;
    }

    /// A copy of the current counts; no side effects.
    pub fn snapshot(&self) -> (s: Stats)
        ensures
            s.typed_chars == self.typed_chars(),
            s.misses == self.misses(),
    {
        Stats { typed_chars: self.typed_chars, misses: self.misses }
    }
}

} // verus!
