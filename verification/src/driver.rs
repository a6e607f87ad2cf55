//! Decisions of the streaming loop that drives the follower: when a step
//! makes no progress, a fresh throttle delay is installed and the one-shot
//! tip-reached signal fires, once.
//!
//! Sleeping and signalling are the caller's job; which delay to sleep and
//! whether to fire are decided here.

use vstd::prelude::*;

verus! {

/// The driver's memory: the configured throttle, whether a delay is pending,
/// and whether the tip-reached signal has fired.
pub struct SyncDriver {
    pub throttle_ms: u64,
    pub delay_pending: bool,
    pub tip_reached_fired: bool,
}

impl SyncDriver {
    pub fn new(throttle_ms: u64) -> (r: SyncDriver)
        ensures
            r.throttle_ms == throttle_ms,
            !r.delay_pending,
            !r.tip_reached_fired,
    {
        SyncDriver { throttle_ms, delay_pending: false, tip_reached_fired: false }
    }

    /// Take the pending delay, if any; the caller sleeps that long before the
    /// next step.
    pub fn take_delay(&mut self) -> (r: Option<u64>)
        ensures
            !final(self).delay_pending,
            final(self).throttle_ms == old(self).throttle_ms,
            final(self).tip_reached_fired == old(self).tip_reached_fired,
            r == if old(self).delay_pending {
                Some(old(self).throttle_ms)
            } else {
                None::<u64>
            },
    {
        if self.delay_pending {
            self.delay_pending = false;
            Some(self.throttle_ms)
        } else {
            None
        }
    }

    /// Record the outcome of one step. On no progress a fresh delay is
    /// installed; the result says whether to fire the tip-reached signal now,
    /// which is true exactly once, at the first no-progress step.
    pub fn note_step(&mut self, progress: bool) -> (fire_signal: bool)
        ensures
            final(self).throttle_ms == old(self).throttle_ms,
            final(self).delay_pending == (old(self).delay_pending || !progress),
            final(self).tip_reached_fired == (old(self).tip_reached_fired || !progress),
            fire_signal == (!progress && !old(self).tip_reached_fired),
    {
        if progress {
            false
        } else {
            self.delay_pending = true;
            let fire = !self.tip_reached_fired;
            self.tip_reached_fired = true;
            fire
        }
    }
}

} // verus!
