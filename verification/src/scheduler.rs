//! Scheduler-side pieces of the core.
//!
//! The scheduler itself owns OS threads, the global queue and the
//! park/unpark handles, all outside the core; here stand its builder
//! and the wake-target policy used when a completed task returns to
//! the queue and one worker must be woken.

use vstd::prelude::*;

verus! {

/// Builder for the scheduler that owns the worker pool and the global
/// queue. The built scheduler lives with the threads it spawns,
/// outside the core; building starts from this empty builder.
pub struct SchedulerBuilder;

impl SchedulerBuilder {
    /// An empty builder.
    pub fn new() -> (b: Self) {
        SchedulerBuilder
    }
}

/// A deterministic wake-target policy: cycles through the worker pool
/// in round-robin order. Any worker serves, since workers only watch
/// queue activity, not which task completed; round-robin makes the
/// choice reproducible where a uniform-random pick would not be.
pub struct WakeRoundRobin {
    /// The worker the next wake goes to.
    pub next: usize,
    /// The size of the worker pool.
    pub count: usize,
}

impl WakeRoundRobin {
    /// The cursor stays inside the (non-empty) pool.
    pub open spec fn wf(&self) -> bool {
        self.count > 0 && self.next < self.count
    }

    /// A policy over a pool of `count` workers, starting at the first.
    pub fn new(count: usize) -> (p: Self)
        requires
            count > 0,
        ensures
            p.wf(),
            p.count == count,
            p.next == 0,
    {
        WakeRoundRobin { next: 0, count }
    }

    /// Picks the worker to wake and advances the cursor, wrapping at
    /// the end of the pool.
    pub fn pick(&mut self) -> (w: usize)
        requires
            old(self).wf(),
        ensures
            final(self).wf(),
            w == old(self).next,
            w < old(self).count,
            final(self).count == old(self).count,
            final(self).next as int == if old(self).next + 1 == old(self).count {
                0
            } else {
                old(self).next + 1
            },
    {
        let w = self.next;
        if self.next + 1 == self.count {
            self.next = 0;
        } else {
            self.next = self.next + 1;
        }
        w
    }
}

} // verus!
