//! The typing-session engine: owns the word list, the cursor, the statistics
//! counters and the countdown timer, consumes raw keystrokes, and produces
//! the final report. The engine is a sequential state machine; whatever
//! drives it (a poll loop, a ticking thread handing over elapsed seconds)
//! calls `tick` once per elapsed second and `submit_keystroke` per key.
//!
//! Every observable move of the engine is pinned by the ghost model
//! [`SessionModel`]: `submit_keystroke` takes the model through
//! [`SessionModel::step`] and `tick` through [`SessionModel::tick_step`],
//! so session-long properties can be proved once at the model level.
use vstd::prelude::*;
use vstd::string::*;
use crate::stats::{Stats, StatsCounter};
use crate::timer::SessionTimer;
use crate::words::{typable_word, WordSource};
use crate::wpm::{wpm_tenths_sat, WpmCalculator};
use crate::{SessionConfig, SessionError};

verus! {

/// The engine's position: which word is current and which of its characters
/// is expected next.
#[derive(Clone, Copy, Debug, PartialEq, Eq, Structural)]
pub struct Cursor {
    /// Index of the current word; equal to the word count once every word
    /// has been typed.
    pub word_index: usize,
    /// Index of the expected character within the current word.
    pub char_index: usize,
}

/// How the engine classified one submitted keystroke.
#[derive(Clone, Copy, Debug, PartialEq, Eq, Structural)]
pub enum KeystrokeOutcome {
    /// The keystroke matched the expected character.
    Correct,
    /// The keystroke matched and completed the current word.
    WordComplete,
    /// The keystroke did not match; the same character must be retried.
    Incorrect,
    /// The session was already finished; nothing changed.
    Ignored,
}

/// What a rendering layer needs for the live display.
#[derive(Clone, Copy, Debug, PartialEq, Eq, Structural)]
pub struct LiveSnapshot {
    pub typed_chars: u64,
    pub misses: u64,
    pub remaining_seconds: u64,
}

/// The immutable final report, created exactly once per session.
#[derive(Clone, Copy, Debug, PartialEq, Eq, Structural)]
pub struct SessionResult {
    /// Seconds the session ran: the timeout minus what was left on the timer.
    pub elapsed_seconds: u64,
    /// Keystrokes that matched the expected character.
    pub typed_chars: u64,
    /// Keystrokes that did not match.
    pub misses: u64,
    /// Words per minute in tenths (72 means 7.2 WPM).
    pub wpm_tenths: u64,
}

/// Ghost model of a session: everything the engine's behaviour is stated
/// over, as mathematical values.
#[verifier::ext_equal]
pub ghost struct SessionModel {
    /// The words to type, as character sequences.
    pub words: Seq<Seq<char>>,
    /// Index of the current word.
    pub word_index: int,
    /// Index of the expected character within the current word.
    pub char_index: int,
    /// Correct keystrokes so far.
    pub typed_chars: int,
    /// Missed keystrokes so far.
    pub misses: int,
    /// Seconds left on the countdown.
    pub remaining_seconds: int,
    /// Whether the countdown has run out; permanent once true.
    pub expired: bool,
    /// The configured countdown length.
    pub timeout_seconds: int,
}

impl SessionModel {
    /// The session invariant: the cursor stays inside the word list, the
    /// expected character exists, every word is non-empty, the counters are
    /// non-negative, and the timer agrees with its expiry flag.
    pub open spec fn inv(self) -> bool {
        &&& 0 <= self.word_index <= self.words.len()
        &&& (self.word_index < self.words.len() ==> 0 <= self.char_index
            < self.words[self.word_index].len())
        &&& (self.word_index == self.words.len() ==> self.char_index == 0)
        &&& (forall|i: int| 0 <= i < self.words.len() ==> #[trigger] self.words[i].len() >= 1)
        &&& 0 <= self.typed_chars
        &&& 0 <= self.misses
        &&& 0 <= self.remaining_seconds <= self.timeout_seconds
        &&& (self.expired <==> self.remaining_seconds == 0)
        &&& 1 <= self.timeout_seconds <= u64::MAX
    }

    /// The sole termination predicate: every word typed, or the countdown
    /// has run out.
    pub open spec fn is_finished(self) -> bool {
        self.word_index == self.words.len() || self.expired
    }

    /// The character the session expects next.
    pub open spec fn expected_char(self) -> char
        recommends
            self.inv(),
            !self.is_finished(),
    {
        self.words[self.word_index][self.char_index]
    }

    /// How one keystroke moves the session.
    ///
    /// A finished session ignores it. A match counts one typed character and
    /// advances the cursor, stepping to the next word when the current one
    /// is complete. A mismatch counts one miss and leaves the cursor alone,
    /// so the same character must be retried. The timer is never touched.
    pub open spec fn step(self, ch: char) -> SessionModel {
        if self.is_finished() {
            self
        } else if ch == self.expected_char() {
            if self.char_index + 1 == self.words[self.word_index].len() {
                SessionModel {
                    word_index: self.word_index + 1,
                    char_index: 0,
                    typed_chars: self.typed_chars + 1,
                    ..self
                }
            } else {
                SessionModel {
                    char_index: self.char_index + 1,
                    typed_chars: self.typed_chars + 1,
                    ..self
                }
            }
        } else {
            SessionModel { misses: self.misses + 1, ..self }
        }
    }

    /// The outcome reported for one keystroke, matching [`Self::step`] case
    /// by case.
    pub open spec fn outcome_of(self, ch: char) -> KeystrokeOutcome {
        if self.is_finished() {
            KeystrokeOutcome::Ignored
        } else if ch == self.expected_char() {
            if self.char_index + 1 == self.words[self.word_index].len() {
                KeystrokeOutcome::WordComplete
            } else {
                KeystrokeOutcome::Correct
            }
        } else {
            KeystrokeOutcome::Incorrect
        }
    }

    /// How one elapsed second moves the session: the countdown loses one
    /// second and expires on reaching zero; expiry is permanent. Cursor and
    /// counters are never touched.
    pub open spec fn tick_step(self) -> SessionModel {
        let rem = if self.remaining_seconds > 0 {
            self.remaining_seconds - 1
        } else {
            0
        };
        SessionModel { remaining_seconds: rem, expired: rem == 0, ..self }
    }
}

/// The interactive session engine.
pub struct TypingSessionEngine {
    config: SessionConfig,
    words: Vec<String>,
    word_index: usize,
    char_index: usize,
    stats: StatsCounter,
    timer: SessionTimer,
}

impl View for TypingSessionEngine {
    type V = SessionModel;

    closed spec fn view(&self) -> SessionModel {
        SessionModel {
            words: self.words.deep_view(),
            word_index: self.word_index as int,
            char_index: self.char_index as int,
            typed_chars: self.stats.typed_chars() as int,
            misses: self.stats.misses() as int,
            remaining_seconds: self.timer.remaining_seconds() as int,
            expired: self.timer.expired(),
            timeout_seconds: self.config.timeout_seconds as int,
        }
    }
}

impl TypingSessionEngine {
    /// The stored configuration agrees with the session it produced.
    pub closed spec fn config_matches(self) -> bool {
        self.config.word_count == self.words@.len() && self.config.valid()
    }

    /// A well-formed engine: its model satisfies the session invariant and
    /// the stored configuration matches the word list.
    pub open spec fn wf(self) -> bool {
        self@.inv() && self.config_matches()
    }

    /// Builds a session over a caller-supplied word list: the countdown is
    /// started, the cursor sits on the first character of the first word and
    /// the counters are zero. Fails with a configuration error — and only
    /// then — if the timeout is zero, the list is empty, or a word is empty.
    pub fn from_words(words: Vec<String>, timeout_seconds: u64, sound_enabled: bool) -> (r:
        Result<TypingSessionEngine, SessionError>)
        ensures
            match r {
                Ok(engine) => {
                    &&& timeout_seconds >= 1
                    &&& words@.len() >= 1
                    &&& engine.wf()
                    &&& engine@.words == words.deep_view()
                    &&& engine@.word_index == 0
                    &&& engine@.char_index == 0
                    &&& engine@.typed_chars == 0
                    &&& engine@.misses == 0
                    &&& engine@.remaining_seconds == timeout_seconds
                    &&& !engine@.expired
                    &&& engine@.timeout_seconds == timeout_seconds
                },
                Err(e) => {
                    &&& e == SessionError::Config
                    &&& (timeout_seconds == 0 || words@.len() == 0 || exists|i: int|
                        0 <= i < words@.len() && #[trigger] words@[i]@.len() == 0)
                },
            },
    {
        if timeout_seconds == 0 || words.len() == 0 {
            return Err(SessionError::Config);
        }
        let mut k: usize = 0;
        while k < words.len()
            invariant
                k <= words@.len(),
                forall|i: int| 0 <= i < k ==> #[trigger] words@[i]@.len() >= 1,
            decreases words@.len() - k,
        {
            if words[k].as_str().is_empty() {
                return Err(SessionError::Config);
            }
            k = k + 1;
        }
        let config = SessionConfig {
            timeout_seconds,
            word_count: words.len(),
            sound_enabled,
        };
        let engine = TypingSessionEngine {
            config,
            words,
            word_index: 0,
            char_index: 0,
            stats: StatsCounter::new(),
            timer: SessionTimer::start(timeout_seconds),
        };
        Ok(engine)
    }

    /// Builds the word list from the word source and starts the session.
    /// Fails with a configuration error — and only then — on an invalid
    /// configuration (zero words requested or a zero timeout). The seed
    /// steers which dictionary words are picked.
    pub fn start(config: SessionConfig, seed: u64) -> (r: Result<
        TypingSessionEngine,
        SessionError,
    >)
        ensures
            match r {
                Ok(engine) => {
                    &&& config.valid()
                    &&& engine.wf()
                    &&& engine@.words.len() == config.word_count
                    &&& engine@.word_index == 0
                    &&& engine@.char_index == 0
                    &&& engine@.typed_chars == 0
                    &&& engine@.misses == 0
                    &&& engine@.remaining_seconds == config.timeout_seconds
                    &&& !engine@.expired
                    &&& engine@.timeout_seconds == config.timeout_seconds
                    &&& forall|i: int| 0 <= i < engine@.words.len() ==> typable_word(
                        #[trigger] engine@.words[i],
                    )
                },
                Err(e) => !config.valid() && e == SessionError::Config,
            },
    {
        if config.timeout_seconds == 0 || config.word_count == 0 {
            return Err(SessionError::Config);
        }
        match WordSource::generate(config.word_count, seed) {
            Ok(words) => TypingSessionEngine::from_words(
                words,
                config.timeout_seconds,
                config.sound_enabled,
            ),
            Err(e) => Err(e),
        }
    }

    /// Classifies one keystroke and moves the session by one step of the
    /// model: a match advances the cursor and counts a typed character, a
    /// mismatch counts a miss, and a finished session — whether by word-list
    /// exhaustion or by timer expiry — ignores the keystroke entirely, so an
    /// in-flight key racing the countdown can never advance cursor or
    /// counters.
    pub fn submit_keystroke(&mut self, ch: char) -> (r: KeystrokeOutcome)
        requires
            old(self).wf(),
            old(self)@.typed_chars < u64::MAX,
            old(self)@.misses < u64::MAX,
        ensures
            final(self).wf(),
            final(self)@ == old(self)@.step(ch),
            r == old(self)@.outcome_of(ch),
    {
        if self.is_finished() {
            return KeystrokeOutcome::Ignored;
        }
        let word_len = self.words[self.word_index].as_str().unicode_len();
        let expected = self.words[self.word_index].as_str().get_char(self.char_index);
        if ch == expected {
            self.stats.record_correct_char();
            if self.char_index + 1 == word_len {
                self.word_index = self.word_index + 1;
                self.char_index = 0;
                KeystrokeOutcome::WordComplete
            } else {
                self.char_index = self.char_index + 1;
                KeystrokeOutcome::Correct
            }
        } else {
            self.stats.record_incorrect_char();
            KeystrokeOutcome::Incorrect
        }
    }

    /// Registers one elapsed second with the countdown; cursor and counters
    /// are untouched, and an expired timer stays expired.
    pub fn tick(&mut self)
        requires
            old(self).wf(),
        ensures
            final(self).wf(),
            final(self)@ == old(self)@.tick_step(),
    {
        self.timer.tick();
    }

    /// Whether the session is over: every word typed, or the countdown has
    /// run out. No side effects.
    pub fn is_finished(&self) -> (r: bool)
        ensures
            r == self@.is_finished(),
    {
        self.word_index == self.words.len() || self.timer.is_expired()
    }

    /// The live counters and remaining time, for an in-progress display.
    /// No side effects.
    pub fn snapshot(&self) -> (s: LiveSnapshot)
        ensures
            s.typed_chars == self@.typed_chars,
            s.misses == self@.misses,
            s.remaining_seconds == self@.remaining_seconds,
    {
        let stats: Stats = self.stats.snapshot();
        LiveSnapshot {
            typed_chars: stats.typed_chars,
            misses: stats.misses,
            remaining_seconds: self.timer.remaining(),
        }
    }

    /// The final report: elapsed seconds (timeout minus what was left),
    /// the two counters, and the WPM rate of [`crate::wpm::wpm_tenths_sat`].
    /// Asking for it before the session is finished is a caller error and —
    /// only then — yields `InvalidState`; the session is not advanced either
    /// way.
    pub fn finish(&self) -> (r: Result<SessionResult, SessionError>)
        requires
            self.wf(),
        ensures
            match r {
                Ok(result) => {
                    &&& self@.is_finished()
                    &&& result.elapsed_seconds == self@.timeout_seconds - self@.remaining_seconds
                    &&& result.typed_chars == self@.typed_chars
                    &&& result.misses == self@.misses
                    &&& result.wpm_tenths as int == wpm_tenths_sat(
                        self@.typed_chars,
                        self@.timeout_seconds - self@.remaining_seconds,
                        self@.misses,
                    )
                },
                Err(e) => !self@.is_finished() && e == SessionError::InvalidState,
            },
    {
        if !self.is_finished() {
            return Err(SessionError::InvalidState);
        }
        let stats: Stats = self.stats.snapshot();
        let elapsed: u64 = self.config.timeout_seconds - self.timer.remaining();
        let rate: u64 = WpmCalculator::compute(stats.typed_chars, elapsed, stats.misses);
        Ok(SessionResult {
            elapsed_seconds: elapsed,
            typed_chars: stats.typed_chars,
            misses: stats.misses,
            wpm_tenths: rate,
        })
    }

    /// The engine's position in the word list; for rendering and callers
    /// that track progress. No side effects.
    pub fn cursor(&self) -> (c: Cursor)
        ensures
            c.word_index == self@.word_index,
            c.char_index == self@.char_index,
    {
        Cursor { word_index: self.word_index, char_index: self.char_index }
    }

    /// Read-only access to the word list, for rendering.
    pub fn words(&self) -> (r: &Vec<String>)
        ensures
            r.deep_view() == self@.words,
    {
        &self.words
    }

    /// The configuration the session was started with.
    pub fn config(&self) -> (c: SessionConfig)
        requires
            self.wf(),
        ensures
            c.timeout_seconds == self@.timeout_seconds,
            c.word_count == self@.words.len(),
            c.valid(),
    {
        self.config
    }
}

} // verus!
