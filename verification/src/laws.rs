//! Session-long guarantees of the engine, proved at the level of the ghost
//! model. `submit_keystroke` pins its effect to [`SessionModel::step`] and
//! `tick` to [`SessionModel::tick_step`], so a whole session is the fold of
//! those two transitions over the events that occurred; the proofs here
//! quantify over every such fold.
use vstd::prelude::*;
use crate::engine::SessionModel;

verus! {

/// One observable event of a running session: a submitted keystroke or one
/// elapsed second.
pub enum SessionEvent {
    Key(char),
    Tick,
}

/// The model after one event.
pub open spec fn apply_event(m: SessionModel, e: SessionEvent) -> SessionModel {
    match e {
        SessionEvent::Key(ch) => m.step(ch),
        SessionEvent::Tick => m.tick_step(),
    }
}

/// The model after a whole sequence of events.
pub open spec fn run_events(m: SessionModel, events: Seq<SessionEvent>) -> SessionModel
    decreases events.len(),
{
    if events.len() == 0 {
        m
    } else {
        run_events(apply_event(m, events[0]), events.drop_first())
    }
}

/// The model after a sequence of keystrokes (no time passing in between).
pub open spec fn run_keys(m: SessionModel, keys: Seq<char>) -> SessionModel
    decreases keys.len(),
{
    if keys.len() == 0 {
        m
    } else {
        run_keys(m.step(keys[0]), keys.drop_first())
    }
}

/// How many of `keys` arrive before the session is finished: the ones the
/// engine classifies as correct or incorrect rather than ignores.
pub open spec fn classified_count(m: SessionModel, keys: Seq<char>) -> int
    decreases keys.len(),
{
    if keys.len() == 0 {
        0
    } else if m.is_finished() {
        0
    } else {
        1 + classified_count(m.step(keys[0]), keys.drop_first())
    }
}

/// A keystroke preserves the session invariant.
pub proof fn lemma_step_preserves_inv(m: SessionModel, ch: char)
    requires
        m.inv(),
    ensures
        m.step(ch).inv(),
{
}

/// An elapsed second preserves the session invariant.
pub proof fn lemma_tick_preserves_inv(m: SessionModel)
    requires
        m.inv(),
    ensures
        m.tick_step().inv(),
{
}

/// Every keystroke submitted before session end is classified as exactly one
/// of correct or incorrect: over any sequence of keystrokes, the sum of the
/// two counters grows by exactly the number of keystrokes that arrived
/// before the session finished.
pub proof fn lemma_every_keystroke_classified(m: SessionModel, keys: Seq<char>)
    ensures
        run_keys(m, keys).typed_chars + run_keys(m, keys).misses == m.typed_chars + m.misses
            + classified_count(m, keys),
    decreases keys.len(),
{
    if keys.len() == 0 {
    } else if m.is_finished() {
        assert(m.step(keys[0]) == m);
        lemma_every_keystroke_classified(m, keys.drop_first());
    } else {
        lemma_every_keystroke_classified(m.step(keys[0]), keys.drop_first());
    }
}

/// A finished session ignores keystrokes entirely: running any sequence of
/// them leaves the model exactly where it was.
pub proof fn lemma_run_keys_of_finished(m: SessionModel, keys: Seq<char>)
    requires
        m.is_finished(),
    ensures
        run_keys(m, keys) == m,
    decreases keys.len(),
{
    if keys.len() > 0 {
        assert(m.step(keys[0]) == m);
        lemma_run_keys_of_finished(m, keys.drop_first());
    }
}

/// As long as the session has not finished, no keystroke is ignored: if the
/// state after a sequence of keystrokes is still unfinished, every one of
/// them was classified, so the counters grew by exactly the number of calls.
pub proof fn lemma_unfinished_run_classifies_all(m: SessionModel, keys: Seq<char>)
    ensures
        !run_keys(m, keys).is_finished() ==> classified_count(m, keys) == keys.len(),
    decreases keys.len(),
{
    if keys.len() > 0 {
        if m.is_finished() {
            lemma_run_keys_of_finished(m, keys);
        } else {
            lemma_unfinished_run_classifies_all(m.step(keys[0]), keys.drop_first());
        }
    }
}

/// Expiry is permanent: once the countdown has run out, no sequence of
/// further keystrokes and elapsed seconds un-expires it, and the session
/// stays finished for the rest of its life.
pub proof fn lemma_no_unexpiry(m: SessionModel, events: Seq<SessionEvent>)
    requires
        m.inv(),
        m.expired,
    ensures
        run_events(m, events).expired,
        run_events(m, events).is_finished(),
    decreases events.len(),
{
    if events.len() > 0 {
        let m2 = apply_event(m, events[0]);
        match events[0] {
            SessionEvent::Key(ch) => {
                lemma_step_preserves_inv(m, ch);
            },
            SessionEvent::Tick => {
                lemma_tick_preserves_inv(m);
            },
        }
        lemma_no_unexpiry(m2, events.drop_first());
    }
}

/// A finished session stays finished: whether it ended by word-list
/// exhaustion or by expiry, no sequence of further keystrokes and elapsed
/// seconds reopens it, and its counters never move again.
pub proof fn lemma_finished_permanent(m: SessionModel, events: Seq<SessionEvent>)
    requires
        m.inv(),
        m.is_finished(),
    ensures
        run_events(m, events).is_finished(),
        run_events(m, events).typed_chars == m.typed_chars,
        run_events(m, events).misses == m.misses,
        run_events(m, events).word_index == m.word_index,
        run_events(m, events).char_index == m.char_index,
    decreases events.len(),
{
    if events.len() > 0 {
        let m2 = apply_event(m, events[0]);
        match events[0] {
            SessionEvent::Key(ch) => {
                lemma_step_preserves_inv(m, ch);
            },
            SessionEvent::Tick => {
                lemma_tick_preserves_inv(m);
            },
        }
        lemma_finished_permanent(m2, events.drop_first());
    }
}

/// The text still to type: the rest of the current word, then every later
/// word, in order.
pub open spec fn tail_words_text(words: Seq<Seq<char>>, from: int) -> Seq<char>
    decreases words.len() - from
        when 0 <= from
{
    if from >= words.len() {
        Seq::empty()
    } else {
        words[from] + tail_words_text(words, from + 1)
    }
}

/// The characters a session still expects, from the cursor to the end of the
/// word list.
pub open spec fn remaining_text(m: SessionModel) -> Seq<char> {
    if 0 <= m.word_index < m.words.len() {
        m.words[m.word_index].skip(m.char_index) + tail_words_text(m.words, m.word_index + 1)
    } else {
        Seq::empty()
    }
}

/// A full correct traversal finishes the session: typing exactly the
/// remaining text of a session whose timer has not expired leaves the cursor
/// past the last word — so the session is finished independent of the timer
/// — with every keystroke counted as typed and not one miss added.
pub proof fn lemma_full_traversal(m: SessionModel)
    requires
        m.inv(),
        !m.expired,
    ensures
        run_keys(m, remaining_text(m)).word_index == m.words.len(),
        run_keys(m, remaining_text(m)).is_finished(),
        run_keys(m, remaining_text(m)).typed_chars == m.typed_chars + remaining_text(m).len(),
        run_keys(m, remaining_text(m)).misses == m.misses,
    decreases remaining_text(m).len(),
{
    if m.word_index == m.words.len() {
        assert(remaining_text(m) =~= Seq::<char>::empty());
    } else {
        let text = remaining_text(m);
        let word = m.words[m.word_index];
        assert(word.skip(m.char_index).len() >= 1);
        let ch = text[0];
        assert(ch == word[m.char_index]);
        assert(!m.is_finished());
        let m2 = m.step(ch);
        lemma_step_preserves_inv(m, ch);
        if m.char_index + 1 < word.len() {
            assert(remaining_text(m2) =~= text.drop_first());
        } else {
            assert(word.skip(m.char_index).len() == 1);
            if m.word_index + 1 < m.words.len() {
                assert(m.words[m.word_index + 1].skip(0) =~= m.words[m.word_index + 1]);
                assert(remaining_text(m2) =~= tail_words_text(m.words, m.word_index + 1));
                assert(remaining_text(m2) =~= text.drop_first());
            } else {
                assert(tail_words_text(m.words, m.word_index + 1) =~= Seq::<char>::empty());
                assert(remaining_text(m2) =~= text.drop_first());
            }
        }
        lemma_full_traversal(m2);
        assert(run_keys(m, text) == run_keys(m2, text.drop_first()));
    }
}

} // verus!
