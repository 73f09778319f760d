//! The sliding daily burn-rate limiter.
//!
//! The limiter tracks the cumulative amount burned inside a rolling 24-hour
//! window anchored at `last_burn_reset`.  The window rolls over lazily: a
//! burn attempt (or a read) at `last_burn_reset + 86400` or later first
//! resets the usage to zero and re-anchors the window at the attempt's
//! timestamp; there is no background timer.

use vstd::prelude::*;

use crate::errors::BTCMinerError;

verus! {

/// Length of the burn-limit window, in seconds.
pub const SECONDS_PER_DAY: u64 = 86400;

/// Cumulative burned amount within the current 24-hour window.
#[derive(Clone, Copy, Debug, PartialEq, Eq, Structural)]
#[verifier::ext_equal]
pub struct RateLimiter {
    /// Policy ceiling on the amount burnable within one window.
    pub daily_burn_limit: u64,
    /// Amount accepted so far in the current window.
    pub daily_burn_amount: u64,
    /// Epoch second at which the current window was anchored.
    pub last_burn_reset: u64,
}

impl RateLimiter {
    /// The limiter's invariant: usage never exceeds the ceiling.
    pub open spec fn wf(self) -> bool {
        self.daily_burn_amount <= self.daily_burn_limit
    }

    /// The window anchored at `last_burn_reset` has expired at `now`.
    pub open spec fn window_expired(self, now: u64) -> bool {
        now >= self.last_burn_reset + SECONDS_PER_DAY
    }

    /// The limiter after the lazy rollover check at `now`: usage drops to
    /// zero and the window re-anchors at `now` when the window has expired,
    /// otherwise nothing changes.
    pub open spec fn rolled(self, now: u64) -> RateLimiter {
        if self.window_expired(now) {
            RateLimiter { daily_burn_amount: 0, last_burn_reset: now, ..self }
        } else {
            self
        }
    }

    /// A burn of `amount` at `now` fits under the ceiling once the lazy
    /// rollover has been applied.
    pub open spec fn accepts(self, amount: u64, now: u64) -> bool {
        self.rolled(now).daily_burn_amount + amount <= self.daily_burn_limit
    }

    /// The limiter after an accepted burn of `amount` at `now`.
    pub open spec fn consumed(self, amount: u64, now: u64) -> RateLimiter {
        let r = self.rolled(now);
        RateLimiter { daily_burn_amount: (r.daily_burn_amount + amount) as u64, ..r }
    }

    /// The limiter after a burn attempt of `amount` at `now`, accepted or
    /// not: a rejected attempt leaves the limiter exactly as it was.
    pub open spec fn stepped(self, amount: u64, now: u64) -> RateLimiter {
        if self.accepts(amount, now) {
            self.consumed(amount, now)
        } else {
            self
        }
    }

    /// The allowance still available at `now`, after the lazy rollover.
    pub open spec fn spec_remaining(self, now: u64) -> u64 {
        (self.daily_burn_limit - self.rolled(now).daily_burn_amount) as u64
    }

    /// A fresh limiter with the given ceiling and an unanchored window.
    pub fn new(daily_burn_limit: u64) -> (r: RateLimiter)
        ensures
            r == (RateLimiter { daily_burn_limit, daily_burn_amount: 0, last_burn_reset: 0 }),
            r.wf(),
    {
        RateLimiter { daily_burn_limit, daily_burn_amount: 0, last_burn_reset: 0 }
    }

    /// Whether the window has expired at `now`, computed without overflow.
    fn window_expired_at(&self, now: u64) -> (r: bool)
        ensures
            r == self.window_expired(now),
    {
        now >= SECONDS_PER_DAY && now - SECONDS_PER_DAY >= self.last_burn_reset
    }

    /// Attempt to consume `amount` of the window's allowance at `now`.
    ///
    /// Applies the lazy rollover, then accepts the burn exactly when the
    /// rolled-over usage plus `amount` stays under the ceiling, returning
    /// the allowance that remains.  A rejected attempt mutates nothing.
    pub fn try_consume(&mut self, amount: u64, now: u64) -> (r: Result<u64, BTCMinerError>)
        requires
            old(self).wf(),
        ensures
            final(self).wf(),
            *final(self) == old(self).stepped(amount, now),
            match r {
                Ok(remaining) => {
                    &&& old(self).accepts(amount, now)
                    &&& *final(self) == old(self).consumed(amount, now)
                    &&& remaining == final(self).daily_burn_limit - final(self).daily_burn_amount
                },
                Err(e) => {
                    &&& e == BTCMinerError::DailyLimitExceeded
                    &&& !old(self).accepts(amount, now)
                    &&& *final(self) == *old(self)
                },
            },
    {
        let rolled_amount: u64 = if self.window_expired_at(now) {
            0
        } else {
            self.daily_burn_amount
        };
        if amount <= self.daily_burn_limit - rolled_amount {
            if self.window_expired_at(now) {
                self.last_burn_reset = now;
            }
            self.daily_burn_amount = rolled_amount + amount;
            Ok(self.daily_burn_limit - self.daily_burn_amount)
        } else {
            Err(BTCMinerError::DailyLimitExceeded)
        }
    }

    /// The allowance still available at `now`, without mutating the window:
    /// the same lazy-rollover logic as [`Self::try_consume`], evaluated
    /// read-only.
    pub fn remaining(&self, now: u64) -> (r: u64)
        requires
            self.wf(),
        ensures
            r == self.spec_remaining(now),
    {
        let rolled_amount: u64 = if self.window_expired_at(now) {
            0
        } else {
            self.daily_burn_amount
        };
        self.daily_burn_limit - rolled_amount
    }
}

/// The limiter after a whole sequence of burn attempts, each a pair of
/// `(amount, timestamp)`, applied in order.
pub open spec fn run(rl: RateLimiter, reqs: Seq<(u64, u64)>) -> RateLimiter
    decreases reqs.len(),
{
    if reqs.len() == 0 {
        rl
    } else {
        run(rl.stepped(reqs[0].0, reqs[0].1), reqs.drop_first())
    }
}

/// The sum of the amounts that a sequence of burn attempts gets accepted,
/// applied in order from `rl`.
pub open spec fn accepted_sum(rl: RateLimiter, reqs: Seq<(u64, u64)>) -> int
    decreases reqs.len(),
{
    if reqs.len() == 0 {
        0
    } else {
        let head: int = if rl.accepts(reqs[0].0, reqs[0].1) {
            reqs[0].0 as int
        } else {
            0
        };
        head + accepted_sum(rl.stepped(reqs[0].0, reqs[0].1), reqs.drop_first())
    }
}

/// Every attempt in `reqs` falls inside the window anchored at
/// `rl.last_burn_reset`.
pub open spec fn in_window(rl: RateLimiter, reqs: Seq<(u64, u64)>) -> bool {
    forall|i: int|
        0 <= i < reqs.len() ==> rl.last_burn_reset <= #[trigger] reqs[i].1
            < rl.last_burn_reset + SECONDS_PER_DAY
}

/// Law: over any sequence of burn attempts that all fall within one
/// 24-hour window, the usage counter grows by exactly the sum of the
/// accepted amounts, and that sum — on top of whatever usage the window
/// started with — never exceeds `daily_burn_limit`.  Every rejected
/// attempt leaves the limiter unchanged, by [`RateLimiter::stepped`].
pub proof fn lemma_daily_limit_bounds_accepted_sum(rl: RateLimiter, reqs: Seq<(u64, u64)>)
    requires
        rl.wf(),
        in_window(rl, reqs),
    ensures
        run(rl, reqs).daily_burn_amount == rl.daily_burn_amount + accepted_sum(rl, reqs),
        rl.daily_burn_amount + accepted_sum(rl, reqs) <= rl.daily_burn_limit,
        run(rl, reqs).last_burn_reset == rl.last_burn_reset,
        run(rl, reqs).daily_burn_limit == rl.daily_burn_limit,
    decreases reqs.len(),
{
    if reqs.len() > 0 {
        let next = rl.stepped(reqs[0].0, reqs[0].1);
        assert(reqs[0].1 < rl.last_burn_reset + SECONDS_PER_DAY);
        assert(!rl.window_expired(reqs[0].1));
        assert(next.last_burn_reset == rl.last_burn_reset);
        assert(in_window(next, reqs.drop_first())) by {
            assert(forall|i: int|
                0 <= i < reqs.drop_first().len() ==> reqs.drop_first()[i] == reqs[i + 1]);
        }
        lemma_daily_limit_bounds_accepted_sum(next, reqs.drop_first());
    }
}

/// Law: the lazy window rollover.  An attempt at `last_burn_reset + 86400`
/// or later sees the usage reset to zero and the window re-anchored at the
/// attempt's own timestamp; any earlier attempt sees the window untouched.
pub proof fn lemma_window_rollover(rl: RateLimiter, now: u64)
    ensures
        rl.window_expired(now) ==> rl.rolled(now) == (RateLimiter {
            daily_burn_amount: 0,
            last_burn_reset: now,
            ..rl
        }),
        !rl.window_expired(now) ==> rl.rolled(now) == rl,
        rl.window_expired(now) <==> now >= rl.last_burn_reset + SECONDS_PER_DAY,
{
}

} // verus!
