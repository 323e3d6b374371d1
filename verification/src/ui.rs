//! Display preparation for the rendering layer. Terminal escape codes,
//! colours and printing stay outside the library; what is verified here is
//! the arithmetic a display needs: rendering a counter as decimal digits and
//! splitting the tenths-of-WPM rate into the "7.2" shape the report shows.
use vstd::prelude::*;

verus! {

/// The number a big-endian sequence of decimal digits denotes.
pub open spec fn digits_value(digits: Seq<u8>) -> int
    decreases digits.len(),
{
    if digits.len() == 0 {
        0
    } else {
        digits_value(digits.drop_last()) * 10 + digits.last()
    }
}

/// Prepares engine values for display.
pub struct UiHandler;

impl UiHandler {
    /// The decimal digits of `n`, most significant first: every digit is
    /// below ten, together they denote exactly `n`, and only zero itself
    /// starts with a zero digit.
    pub fn decimal_digits_of(n: u64) -> (r: Vec<u8>)
        ensures
            r@.len() >= 1,
            forall|i: int| 0 <= i < r@.len() ==> #[trigger] r@[i] < 10,
            digits_value(r@) == n,
            r@[0] == 0 ==> n == 0,
        decreases n,
    {
        if n < 10 {
            let mut r: Vec<u8> = Vec::new();
            r.push(n as u8);
            proof {
                assert(r@.drop_last() =~= Seq::<u8>::empty());
                assert(digits_value(Seq::<u8>::empty()) == 0);
                assert(digits_value(r@) == r@.last());
            }
            r
        } else {
            let mut r = UiHandler::decimal_digits_of(n / 10);
            let ghost prefix = r@;
            r.push((n % 10) as u8);
            proof {
                assert(r@.drop_last() =~= prefix);
                assert(digits_value(r@) == digits_value(prefix) * 10 + (n % 10));
            }
            r
        }
    }

    /// Splits a rate in tenths of a WPM into its whole part and its single
    /// tenths digit, as the report displays it.
    pub fn wpm_split(wpm_tenths: u64) -> (r: (u64, u64))
        ensures
            r.0 == wpm_tenths / 10,
            r.1 == wpm_tenths % 10,
            r.1 < 10,
            r.0 * 10 + r.1 == wpm_tenths,
    {
        (wpm_tenths / 10, wpm_tenths % 10)
    }
}

} // verus!
