//! Words-per-minute computation. The standard convention counts every five
//! correctly typed characters as one word; misses are subtracted from the
//! typed characters first, clamped at zero, and the net word count is scaled
//! to a per-minute rate.
//!
//! The rate is reported in tenths of a WPM (an exact integer), so `72` means
//! 7.2 words per minute; a presentation layer divides by ten for display.
use vstd::prelude::*;
use vstd::arithmetic::div_mod::lemma_div_is_ordered;

verus! {

/// Characters that count towards the rate: typed characters minus misses,
/// never below zero.
pub open spec fn net_chars(typed_chars: int, misses: int) -> int {
    if typed_chars >= misses {
        typed_chars - misses
    } else {
        0
    }
}

/// The rate in tenths of a WPM, as an unbounded integer.
///
/// `net / 5` words over `elapsed / 60` minutes is `12 * net / elapsed` WPM,
/// so in tenths it is `120 * net / elapsed`, rounded towards zero. A session
/// of zero elapsed seconds has no measurable rate and reports zero.
pub open spec fn wpm_tenths(typed_chars: int, elapsed_seconds: int, misses: int) -> int {
    if elapsed_seconds <= 0 {
        0
    } else {
        120 * net_chars(typed_chars, misses) / elapsed_seconds
    }
}

/// The rate in tenths of a WPM as a machine word: equal to [`wpm_tenths`]
/// wherever that fits in a `u64`, and saturated at `u64::MAX` beyond.
pub open spec fn wpm_tenths_sat(typed_chars: int, elapsed_seconds: int, misses: int) -> int {
    if wpm_tenths(typed_chars, elapsed_seconds, misses) > u64::MAX {
        u64::MAX as int
    } else {
        wpm_tenths(typed_chars, elapsed_seconds, misses)
    }
}

/// Pure calculator for the final report.
pub struct WpmCalculator;

impl WpmCalculator {
    /// Computes the rate in tenths of a WPM.
    ///
    /// The result equals `wpm_tenths` exactly wherever that value fits in a
    /// `u64`; beyond that machine limit it saturates at `u64::MAX`.
    pub fn compute(typed_chars: u64, elapsed_seconds: u64, misses: u64) -> (r: u64)
        ensures
            r as int == wpm_tenths_sat(typed_chars as int, elapsed_seconds as int, misses as int),
            elapsed_seconds == 0 ==> r == 0,
    {
        if elapsed_seconds == 0 {
            return 0;
        }
        let net: u64 = if typed_chars >= misses {
            typed_chars - misses
        } else {
            0
        };
        let scaled: u128 = 120u128 * (net as u128);
        let quotient: u128 = scaled / (elapsed_seconds as u128);
        if quotient > u64::MAX as u128 {
            u64::MAX
        } else {
            quotient as u64
        }
    }
}

/// The rate never goes down when more characters are typed: for a fixed
/// elapsed time and miss count, `wpm_tenths` is monotonically non-decreasing
/// in the typed-character count.
pub proof fn lemma_wpm_monotone_in_typed(t1: int, t2: int, elapsed: int, misses: int)
    requires
        t1 <= t2,
    ensures
        wpm_tenths(t1, elapsed, misses) <= wpm_tenths(t2, elapsed, misses),
        wpm_tenths_sat(t1, elapsed, misses) <= wpm_tenths_sat(t2, elapsed, misses),
{
    if elapsed > 0 {
        lemma_div_is_ordered(120 * net_chars(t1, misses), 120 * net_chars(t2, misses), elapsed);
    }
}

/// The rate never goes up when more keystrokes miss: for a fixed
/// typed-character count and elapsed time, `wpm_tenths` is monotonically
/// non-increasing in the miss count.
pub proof fn lemma_wpm_antitone_in_misses(typed: int, elapsed: int, m1: int, m2: int)
    requires
        m1 <= m2,
    ensures
        wpm_tenths(typed, elapsed, m2) <= wpm_tenths(typed, elapsed, m1),
        wpm_tenths_sat(typed, elapsed, m2) <= wpm_tenths_sat(typed, elapsed, m1),
{
    if elapsed > 0 {
        lemma_div_is_ordered(120 * net_chars(typed, m2), 120 * net_chars(typed, m1), elapsed);
    }
}

/// The rate is never negative.
pub proof fn lemma_wpm_nonnegative(typed: int, elapsed: int, misses: int)
    ensures
        wpm_tenths(typed, elapsed, misses) >= 0,
{
    if elapsed > 0 {
        lemma_div_is_ordered(0, 120 * net_chars(typed, misses), elapsed);
        assert(0int / elapsed == 0) by {
            vstd::arithmetic::div_mod::lemma_div_of0(elapsed);
        }
    }
}

} // verus!
