//! Produces the ordered list of words a session presents. Words are drawn
//! from a fixed dictionary of common words; which ones are picked is steered
//! by a caller-supplied seed, so a caller that wants variety passes a fresh
//! seed and a test that wants determinism passes a fixed one.
use vstd::prelude::*;
use vstd::string::*;
use crate::SessionError;

verus! {

/// Number of entries in the built-in dictionary.
pub const DICT_LEN: u64 = 24;

/// A word a session may present: non-empty, all lowercase ASCII letters
/// (in particular, printable).
pub open spec fn typable_word(w: Seq<char>) -> bool {
    w.len() >= 1 && forall|i: int| 0 <= i < w.len() ==> 'a' <= #[trigger] w[i] <= 'z'
}

/// The built-in dictionary. Every entry is a typable word.
fn dictionary_word(index: u64) -> (w: &'static str)
    requires
        index < DICT_LEN,
    ensures
        typable_word(w@),
{
    match index {
        0 => { proof { reveal_strlit("time"); } "time" },
        1 => { proof { reveal_strlit("world"); } "world" },
        2 => { proof { reveal_strlit("house"); } "house" },
        3 => { proof { reveal_strlit("light"); } "light" },
        4 => { proof { reveal_strlit("water"); } "water" },
        5 => { proof { reveal_strlit("sound"); } "sound" },
        6 => { proof { reveal_strlit("plain"); } "plain" },
        7 => { proof { reveal_strlit("river"); } "river" },
        8 => { proof { reveal_strlit("green"); } "green" },
        9 => { proof { reveal_strlit("stone"); } "stone" },
        10 => { proof { reveal_strlit("cloud"); } "cloud" },
        11 => { proof { reveal_strlit("night"); } "night" },
        12 => { proof { reveal_strlit("paper"); } "paper" },
        13 => { proof { reveal_strlit("field"); } "field" },
        14 => { proof { reveal_strlit("music"); } "music" },
        15 => { proof { reveal_strlit("quick"); } "quick" },
        16 => { proof { reveal_strlit("brown"); } "brown" },
        17 => { proof { reveal_strlit("jumps"); } "jumps" },
        18 => { proof { reveal_strlit("early"); } "early" },
        19 => { proof { reveal_strlit("smile"); } "smile" },
        20 => { proof { reveal_strlit("train"); } "train" },
        21 => { proof { reveal_strlit("chair"); } "chair" },
        22 => { proof { reveal_strlit("glass"); } "glass" },
        _ => { proof { reveal_strlit("maple"); } "maple" },
    }
}

/// Builds the word list a session will present.
pub struct WordSource;

impl WordSource {
    /// Returns exactly `word_count` words, each non-empty and typable,
    /// picked from the dictionary as the seed directs; asking for zero words
    /// is a configuration error, and nothing else fails.
    pub fn generate(word_count: usize, seed: u64) -> (r: Result<Vec<String>, SessionError>)
        ensures
            match r {
                Ok(words) => word_count >= 1 && words@.len() == word_count && (forall|i: int|
                    0 <= i < words@.len() ==> typable_word(#[trigger] words@[i]@)),
                Err(e) => word_count == 0 && e == SessionError::Config,
            },
    {
        if word_count == 0 {
            return Err(SessionError::Config);
        }
        let mut words: Vec<String> = Vec::new();
        let mut state: u64 = seed;
        let mut k: usize = 0;
        while k < word_count
            invariant
                k <= word_count,
                words@.len() == k,
                forall|i: int| 0 <= i < words@.len() ==> typable_word(#[trigger] words@[i]@),
            decreases word_count - k,
        {
            state = state.wrapping_mul(6364136223846793005).wrapping_add(1442695040888963407);
            let index: u64 = (state >> 33) % DICT_LEN;
            let word = dictionary_word(index);
            words.push(String::from_str(word));
            k = k + 1;
        }
        Ok(words)
    }
}

} // verus!
