//! The refresh scheduler: when the process list is due for a new snapshot,
//! and how long the monitor may wait for input until then.

use vstd::prelude::*;

verus! {

/// Milliseconds between two snapshots of the process list.
pub const TICK_RATE_MS: u64 = 1000;

/// Remembers when the process list was last refreshed.
#[derive(Clone, Copy, Debug, PartialEq, Eq, Structural)]
pub struct RefreshScheduler {
    /// Clock reading, in milliseconds, at the last refresh.
    pub last_refresh_ms: u64,
}

impl RefreshScheduler {
    /// The scheduler right after a refresh at `now_ms`.
    pub open spec fn at(now_ms: u64) -> RefreshScheduler {
        RefreshScheduler { last_refresh_ms: now_ms }
    }

    /// Milliseconds since the last refresh; none if the clock reads less
    /// than it did then.
    pub open spec fn elapsed(self, now_ms: u64) -> int {
        if now_ms >= self.last_refresh_ms {
            now_ms - self.last_refresh_ms
        } else {
            0
        }
    }

    /// A refresh is due at `now_ms`: the interval has passed since the last
    /// one.
    pub open spec fn due(self, now_ms: u64) -> bool {
        self.elapsed(now_ms) >= TICK_RATE_MS
    }

    /// Milliseconds left at `now_ms` until the next refresh is due.
    pub open spec fn remaining(self, now_ms: u64) -> int {
        if self.due(now_ms) {
            0
        } else {
            TICK_RATE_MS - self.elapsed(now_ms)
        }
    }

    /// A scheduler that counts its interval from `now_ms`.
    pub fn new(now_ms: u64) -> (scheduler: RefreshScheduler)
        ensures
            scheduler == RefreshScheduler::at(now_ms),
    {
        RefreshScheduler { last_refresh_ms: now_ms }
    }

    /// The longest the monitor may wait for input at `now_ms` without
    /// missing the next refresh.
    pub fn poll_timeout(&self, now_ms: u64) -> (timeout: u64)
        ensures
            timeout == self.remaining(now_ms),
    {
        let elapsed: u64 = if now_ms >= self.last_refresh_ms {
            now_ms - self.last_refresh_ms
        } else {
            0
        };
        if elapsed >= TICK_RATE_MS {
            0
        } else {
            TICK_RATE_MS - elapsed
        }
    }

    /// Says whether a refresh is due at `now_ms`.
    pub fn is_due(&self, now_ms: u64) -> (due: bool)
        ensures
            due == self.due(now_ms),
    {
        now_ms >= self.last_refresh_ms && now_ms - self.last_refresh_ms >= TICK_RATE_MS
    }

    /// Records that the list was refreshed at `now_ms`.
    pub fn mark_refreshed(&mut self, now_ms: u64)
        ensures
            *final(self) == RefreshScheduler::at(now_ms),
    {
        self.last_refresh_ms = now_ms;
    }
}

/// Once a refresh has been recorded, no further refresh is due until a
/// whole interval has passed, and one is due from then on.
pub proof fn lemma_one_refresh_per_interval(refreshed_ms: u64, now_ms: u64)
    ensures
        now_ms - refreshed_ms < TICK_RATE_MS ==> !RefreshScheduler::at(refreshed_ms).due(now_ms),
        now_ms - refreshed_ms >= TICK_RATE_MS ==> RefreshScheduler::at(refreshed_ms).due(now_ms),
{
}

/// There is no time left to wait exactly when a refresh is due, and
/// otherwise a refresh is due once the time left has been waited out.
pub proof fn lemma_timeout_reaches_refresh(scheduler: RefreshScheduler, now_ms: u64, later_ms: u64)
    requires
        now_ms >= scheduler.last_refresh_ms,
        later_ms == now_ms + scheduler.remaining(now_ms),
    ensures
        0 <= scheduler.remaining(now_ms) <= TICK_RATE_MS,
        scheduler.remaining(now_ms) == 0 <==> scheduler.due(now_ms),
        scheduler.due(later_ms),
        forall|between_ms: u64| now_ms <= between_ms < later_ms ==> !scheduler.due(between_ms),
{
}

} // verus!
