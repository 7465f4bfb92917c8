//! The expiry sweep: the whole cache is cleared once a fixed interval has
//! passed since the last clear, whatever the age of a single document.

use vstd::prelude::*;
use crate::cache::FeedCache;

verus! {

/// Seconds between two clears.
pub const SWEEP_INTERVAL_SECS: u64 = 3600;

/// Whether a clear is due at `now`, the last one having been at `last_clear`.
/// Both are whole seconds read from one clock that never runs backwards; a
/// reading before the last clear makes none due.
pub open spec fn sweep_due(last_clear: u64, now: u64) -> bool {
    now - last_clear >= SWEEP_INTERVAL_SECS
}

/// Remembers when the cache was last cleared.
#[derive(Debug, Clone, Copy, PartialEq, Eq, Structural)]
pub struct Sweeper {
    pub last_clear: u64,
}

impl Sweeper {
    /// A sweeper for a cache that is created at `now`.
    pub fn new(now: u64) -> (sweeper: Sweeper)
        ensures
            sweeper.last_clear == now,
    {
        Sweeper { last_clear: now }
    }

    /// Looks at the clock once. If the interval has passed, clears the cache
    /// and counts the next interval from `now`; if not, changes nothing.
    pub fn tick(&mut self, now: u64, cache: &mut FeedCache) -> (swept: bool)
        ensures
            swept == sweep_due(old(self).last_clear, now),
            swept ==> final(self).last_clear == now && final(cache)@ == old(cache)@.clear(),
            !swept ==> *final(self) == *old(self) && final(cache)@ == old(cache)@,
    {
        if now >= self.last_clear && now - self.last_clear >= SWEEP_INTERVAL_SECS {
            cache.clear();
            self.last_clear = now;
            true
        } else {
            false
        }
    }
}

} // verus!
