use rtyping::engine::{KeystrokeOutcome, TypingSessionEngine};
use rtyping::stats::StatsCounter;
use rtyping::ui::UiHandler;
use rtyping::timer::SessionTimer;
use rtyping::words::WordSource;
use rtyping::wpm::WpmCalculator;
use rtyping::{SessionConfig, SessionError};

fn word_list(words: &[&str]) -> Vec<String> {
    words.iter().map(|w| String::from(*w)).collect()
}

#[test]
fn generate_returns_exactly_the_requested_words() {
    for count in [1usize, 5, 30] {
        let words = WordSource::generate(count, 42).unwrap();
        assert_eq!(words.len(), count);
        for word in &words {
            assert!(!word.is_empty());
            assert!(word.chars().all(|c| c.is_ascii_lowercase()));
        }
    }
}

#[test]
fn generate_rejects_zero_words() {
    assert_eq!(WordSource::generate(0, 42), Err(SessionError::Config));
}

#[test]
fn stats_counter_increments_exactly_one_counter() {
    let mut counter = StatsCounter::new();
    counter.record_correct_char();
    counter.record_correct_char();
    counter.record_incorrect_char();
    let stats = counter.snapshot();
    assert_eq!(stats.typed_chars, 2);
    assert_eq!(stats.misses, 1);
}

#[test]
fn wpm_is_zero_for_zero_elapsed_seconds() {
    assert_eq!(WpmCalculator::compute(0, 0, 0), 0);
    assert_eq!(WpmCalculator::compute(500, 0, 3), 0);
    assert_eq!(WpmCalculator::compute(7, 0, 100), 0);
}

#[test]
fn wpm_matches_the_formula_exactly() {
    // 3 net chars over 5 seconds: (3 / 5) words / (5 / 60) minutes = 7.2 WPM.
    assert_eq!(WpmCalculator::compute(3, 5, 0), 72);
    // One miss: 2 net chars give 4.8 WPM.
    assert_eq!(WpmCalculator::compute(3, 5, 1), 48);
    // 8 net chars over a minute: 1.6 WPM.
    assert_eq!(WpmCalculator::compute(10, 60, 2), 16);
}

#[test]
fn wpm_never_goes_negative() {
    // More misses than typed characters clamps the net count at zero.
    assert_eq!(WpmCalculator::compute(2, 10, 5), 0);
}

#[test]
fn wpm_is_monotone_in_typed_chars_and_misses() {
    assert!(WpmCalculator::compute(5, 10, 1) <= WpmCalculator::compute(7, 10, 1));
    assert!(WpmCalculator::compute(7, 10, 3) <= WpmCalculator::compute(7, 10, 1));
}

#[test]
fn timer_counts_down_and_expiry_is_permanent() {
    let mut timer = SessionTimer::start(2);
    assert!(!timer.is_expired());
    assert_eq!(timer.remaining(), 2);
    timer.tick();
    assert!(!timer.is_expired());
    assert_eq!(timer.remaining(), 1);
    timer.tick();
    assert!(timer.is_expired());
    assert_eq!(timer.remaining(), 0);
    timer.tick();
    assert!(timer.is_expired());
    assert_eq!(timer.remaining(), 0);
}

#[test]
fn start_builds_a_session_from_a_valid_config() {
    let config = SessionConfig { timeout_seconds: 60, word_count: 30, sound_enabled: false };
    let engine = TypingSessionEngine::start(config, 7).unwrap();
    assert_eq!(engine.words().len(), 30);
    let snap = engine.snapshot();
    assert_eq!(snap.typed_chars, 0);
    assert_eq!(snap.misses, 0);
    assert_eq!(snap.remaining_seconds, 60);
    assert!(!engine.is_finished());
}

#[test]
fn start_rejects_an_invalid_config() {
    let no_words = SessionConfig { timeout_seconds: 60, word_count: 0, sound_enabled: false };
    assert!(matches!(TypingSessionEngine::start(no_words, 7), Err(SessionError::Config)));
    let no_time = SessionConfig { timeout_seconds: 0, word_count: 30, sound_enabled: false };
    assert!(matches!(TypingSessionEngine::start(no_time, 7), Err(SessionError::Config)));
}

#[test]
fn from_words_rejects_empty_input() {
    assert!(matches!(
        TypingSessionEngine::from_words(word_list(&[]), 60, false),
        Err(SessionError::Config)
    ));
    assert!(matches!(
        TypingSessionEngine::from_words(word_list(&["cat", ""]), 60, false),
        Err(SessionError::Config)
    ));
    assert!(matches!(
        TypingSessionEngine::from_words(word_list(&["cat"]), 0, false),
        Err(SessionError::Config)
    ));
}

#[test]
fn perfect_run_on_one_word() {
    // One word, "cat", typed perfectly after five elapsed seconds.
    let mut engine = TypingSessionEngine::from_words(word_list(&["cat"]), 60, false).unwrap();
    for _ in 0..5 {
        engine.tick();
    }
    assert_eq!(engine.submit_keystroke('c'), KeystrokeOutcome::Correct);
    assert_eq!(engine.submit_keystroke('a'), KeystrokeOutcome::Correct);
    assert_eq!(engine.submit_keystroke('t'), KeystrokeOutcome::WordComplete);
    assert!(engine.is_finished());
    let result = engine.finish().unwrap();
    assert_eq!(result.elapsed_seconds, 5);
    assert_eq!(result.typed_chars, 3);
    assert_eq!(result.misses, 0);
    // (3 - 0) / 5 words over 5/60 minutes: 7.2 WPM.
    assert_eq!(result.wpm_tenths, 72);
}

#[test]
fn one_miss_is_counted_and_penalized() {
    // "cat" with one wrong keystroke in the middle: the cursor waits for a
    // retry, so 'c', 'x', 'a', 't' still completes the word.
    let mut engine = TypingSessionEngine::from_words(word_list(&["cat"]), 60, false).unwrap();
    for _ in 0..5 {
        engine.tick();
    }
    assert_eq!(engine.submit_keystroke('c'), KeystrokeOutcome::Correct);
    assert_eq!(engine.submit_keystroke('x'), KeystrokeOutcome::Incorrect);
    assert_eq!(engine.submit_keystroke('a'), KeystrokeOutcome::Correct);
    assert_eq!(engine.submit_keystroke('t'), KeystrokeOutcome::WordComplete);
    assert!(engine.is_finished());
    let result = engine.finish().unwrap();
    assert_eq!(result.typed_chars, 3);
    assert_eq!(result.misses, 1);
    // (3 - 1) / 5 words over 5/60 minutes: 4.8 WPM.
    assert_eq!(result.wpm_tenths, 48);
}

#[test]
fn expiry_with_no_keystrokes_finishes_the_session() {
    let mut engine = TypingSessionEngine::from_words(word_list(&["cat"]), 1, false).unwrap();
    assert!(!engine.is_finished());
    engine.tick();
    assert!(engine.is_finished());
    let result = engine.finish().unwrap();
    assert_eq!(result.elapsed_seconds, 1);
    assert_eq!(result.typed_chars, 0);
    assert_eq!(result.misses, 0);
    assert_eq!(result.wpm_tenths, 0);
}

#[test]
fn every_keystroke_before_the_end_is_classified() {
    let mut engine = TypingSessionEngine::from_words(word_list(&["hi"]), 60, false).unwrap();
    for ch in ['x', 'h', 'x', 'x', 'i'] {
        engine.submit_keystroke(ch);
    }
    let snap = engine.snapshot();
    assert_eq!(snap.typed_chars + snap.misses, 5);
}

#[test]
fn full_traversal_exhausts_the_word_list() {
    let mut engine = TypingSessionEngine::from_words(word_list(&["hi", "go"]), 60, false).unwrap();
    for ch in ['h', 'i', 'g', 'o'] {
        engine.submit_keystroke(ch);
    }
    assert_eq!(engine.cursor().word_index, 2);
    assert!(engine.is_finished());
}

#[test]
fn a_mismatch_does_not_advance_the_cursor() {
    let mut engine = TypingSessionEngine::from_words(word_list(&["cat"]), 60, false).unwrap();
    assert_eq!(engine.submit_keystroke('x'), KeystrokeOutcome::Incorrect);
    let cursor = engine.cursor();
    assert_eq!(cursor.word_index, 0);
    assert_eq!(cursor.char_index, 0);
    assert_eq!(engine.submit_keystroke('c'), KeystrokeOutcome::Correct);
    assert_eq!(engine.cursor().char_index, 1);
}

#[test]
fn a_miss_on_the_last_character_does_not_end_the_session() {
    let mut engine = TypingSessionEngine::from_words(word_list(&["cat"]), 60, false).unwrap();
    engine.submit_keystroke('c');
    engine.submit_keystroke('a');
    assert_eq!(engine.submit_keystroke('x'), KeystrokeOutcome::Incorrect);
    assert!(!engine.is_finished());
    assert_eq!(engine.submit_keystroke('t'), KeystrokeOutcome::WordComplete);
    assert!(engine.is_finished());
}

#[test]
fn keystrokes_after_the_end_are_ignored() {
    let mut engine = TypingSessionEngine::from_words(word_list(&["hi"]), 1, false).unwrap();
    engine.tick();
    assert!(engine.is_finished());
    assert_eq!(engine.submit_keystroke('h'), KeystrokeOutcome::Ignored);
    let snap = engine.snapshot();
    assert_eq!(snap.typed_chars, 0);
    assert_eq!(snap.misses, 0);
    let cursor = engine.cursor();
    assert_eq!(cursor.word_index, 0);
    assert_eq!(cursor.char_index, 0);
}

#[test]
fn finish_before_the_end_is_an_invalid_state() {
    let engine = TypingSessionEngine::from_words(word_list(&["cat"]), 60, false).unwrap();
    assert!(matches!(engine.finish(), Err(SessionError::InvalidState)));
}

#[test]
fn snapshot_tracks_the_live_counters() {
    let mut engine = TypingSessionEngine::from_words(word_list(&["cat"]), 10, false).unwrap();
    engine.submit_keystroke('c');
    engine.submit_keystroke('x');
    engine.tick();
    let snap = engine.snapshot();
    assert_eq!(snap.typed_chars, 1);
    assert_eq!(snap.misses, 1);
    assert_eq!(snap.remaining_seconds, 9);
}

#[test]
fn decimal_digits_render_counters_exactly() {
    assert_eq!(UiHandler::decimal_digits_of(0), vec![0]);
    assert_eq!(UiHandler::decimal_digits_of(7), vec![7]);
    assert_eq!(UiHandler::decimal_digits_of(907), vec![9, 0, 7]);
    assert_eq!(
        UiHandler::decimal_digits_of(u64::MAX),
        vec![1, 8, 4, 4, 6, 7, 4, 4, 0, 7, 3, 7, 0, 9, 5, 5, 1, 6, 1, 5]
    );
}

#[test]
fn wpm_split_gives_the_displayed_shape() {
    assert_eq!(UiHandler::wpm_split(72), (7, 2));
    assert_eq!(UiHandler::wpm_split(48), (4, 8));
    assert_eq!(UiHandler::wpm_split(0), (0, 0));
    assert_eq!(UiHandler::wpm_split(1203), (120, 3));
}

#[test]
fn generate_is_deterministic_for_a_fixed_seed() {
    let a = WordSource::generate(10, 99).unwrap();
    let b = WordSource::generate(10, 99).unwrap();
    assert_eq!(a, b);
}
