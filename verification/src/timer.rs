//! Countdown timer state machine. The engine owns one of these per session;
//! whatever drives the clock (a ticking thread, a poll loop between bounded
//! reads) calls `tick` once per elapsed second. The machine itself is pure:
//! `Running -> Expired` is its only transition, one-way and terminal.
use vstd::prelude::*;

verus! {

/// A countdown from a configured number of seconds. Once it reaches zero it
/// is expired and stays expired for the rest of its life.
pub struct SessionTimer {
    remaining_seconds: u64,
    expired: bool,
}

impl SessionTimer {
    /// Seconds still to run.
    pub closed spec fn remaining_seconds(self) -> u64 {
        self.remaining_seconds
    }

    /// Whether the countdown has reached zero.
    pub closed spec fn expired(self) -> bool {
        self.expired
    }

    /// A timer is well formed when the expiry flag agrees with the count:
    /// it is expired exactly when no seconds remain.
    pub open spec fn wf(self) -> bool {
        self.expired() <==> self.remaining_seconds() == 0
    }

    /// Starts a countdown of `timeout_seconds`, which a valid configuration
    /// guarantees to be positive; the fresh timer is running, not expired.
    pub fn start(timeout_seconds: u64) -> (t: SessionTimer)
        requires
            timeout_seconds >= 1,
        ensures
            t.wf(),
            t.remaining_seconds() == timeout_seconds,
            !t.expired(),
    {
        SessionTimer { remaining_seconds: timeout_seconds, expired: false }
    }

    /// Advances the countdown by one elapsed second. A running timer loses
    /// one second and expires on reaching zero; an expired timer is
    /// unchanged — expiry is permanent.
    pub fn tick(&mut self)
        requires
            old(self).wf(),
        ensures
            final(self).wf(),
            old(self).remaining_seconds() > 0 ==> final(self).remaining_seconds()
                == old(self).remaining_seconds() - 1,
            old(self).remaining_seconds() == 0 ==> final(self).remaining_seconds() == 0,
            final(self).expired() == (final(self).remaining_seconds() == 0),
            old(self).expired() ==> final(self).expired(),
    {
        if self.remaining_seconds > 0 {
            self.remaining_seconds = self.remaining_seconds - 1;
        }
        if self.remaining_seconds == 0 {
            self.expired = true;
        }
    }

    /// Reports whether the countdown has reached zero; no side effects.
    pub fn is_expired(&self) -> (r: bool)
        ensures
            r == self.expired(),
    {
        self.expired
    }

    /// The seconds still to run; no side effects.
    pub fn remaining(&self) -> (r: u64)
        ensures
            r == self.remaining_seconds(),
    {
        self.remaining_seconds
    }
}

} // verus!
