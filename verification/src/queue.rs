//! Flow-control state of the crawl: the bounded worker-permit pool with its
//! queue of pending units, and the accumulating request-rate limiter. Both
//! are pure state machines here; the runtime that suspends on them lives
//! outside the library and drives these models one transition at a time.

use vstd::prelude::*;

verus! {

/// The scheduler's flow-control state: a permit pool sized to the
/// configured parallelism, a count of queued units, and bookkeeping of
/// finished ones. A unit is `Queued` until it acquires a permit, `Running`
/// while it holds one, and `Completed` or `Failed` afterwards; nothing is
/// ever cancelled.
pub struct Queue {
    jobs: usize,
    queued: usize,
    running: usize,
    completed: usize,
    failed: usize,
}

impl Queue {
    /// Well-formedness: the parallelism is positive and never more than
    /// `jobs` units hold a permit at once.
    pub open spec fn wf(&self) -> bool {
        self.spec_jobs() >= 1 && self.spec_running() <= self.spec_jobs()
    }

    /// The configured parallelism.
    pub closed spec fn spec_jobs(&self) -> usize {
        self.jobs
    }

    /// Units waiting for a permit.
    pub closed spec fn spec_queued(&self) -> usize {
        self.queued
    }

    /// Units currently holding a permit.
    pub closed spec fn spec_running(&self) -> usize {
        self.running
    }

    /// Units that finished successfully.
    pub closed spec fn spec_completed(&self) -> usize {
        self.completed
    }

    /// Units that finished with an error of their own.
    pub closed spec fn spec_failed(&self) -> usize {
        self.failed
    }

    /// The whole crawl is done when no unit is running and none is queued:
    /// every submission comes from the driver before the run or from a
    /// running unit, so a quiescent queue can never grow again.
    pub open spec fn spec_quiescent(&self) -> bool {
        self.spec_queued() == 0 && self.spec_running() == 0
    }

    /// Sets up the permit pool for the requested parallelism.
    pub fn set_parallel_jobs(jobs: usize) -> (q: Queue)
        requires
            jobs >= 1,
        ensures
            q.wf(),
            q.spec_jobs() == jobs,
            q.spec_queued() == 0,
            q.spec_running() == 0,
            q.spec_completed() == 0,
            q.spec_failed() == 0,
    {
        Queue { jobs, queued: 0, running: 0, completed: 0, failed: 0 }
    }

    /// Enqueues one processing unit. Never blocks the caller, whether it is
    /// the top-level driver or a running unit scheduling a child.
    pub fn spawn(&mut self)
        requires
            old(self).wf(),
            old(self).spec_queued() < usize::MAX,
        ensures
            final(self).wf(),
            final(self).spec_queued() == old(self).spec_queued() + 1,
            final(self).spec_jobs() == old(self).spec_jobs(),
            final(self).spec_running() == old(self).spec_running(),
            final(self).spec_completed() == old(self).spec_completed(),
            final(self).spec_failed() == old(self).spec_failed(),
    {
        self.queued = self.queued + 1;
    }

    /// Hands a permit to one queued unit if the pool is not saturated;
    /// returns whether a unit started. The bound on simultaneously running
    /// units is part of the contract: afterwards `running <= jobs` still
    /// holds.
    pub fn get_ticket(&mut self) -> (started: bool)
        requires
            old(self).wf(),
        ensures
            final(self).wf(),
            started == (old(self).spec_queued() > 0 && old(self).spec_running() < old(
                self,
            ).spec_jobs()),
            final(self).spec_jobs() == old(self).spec_jobs(),
            final(self).spec_completed() == old(self).spec_completed(),
            final(self).spec_failed() == old(self).spec_failed(),
            started ==> final(self).spec_queued() == old(self).spec_queued() - 1
                && final(self).spec_running() == old(self).spec_running() + 1,
            !started ==> *final(self) == *old(self),
            final(self).spec_running() <= final(self).spec_jobs(),
    {
        if self.queued > 0 && self.running < self.jobs {
            self.queued = self.queued - 1;
            self.running = self.running + 1;
            true
        } else {
            false
        }
    }

    /// Releases the permit of one running unit, recording whether the unit
    /// completed or failed. Release is unconditional: it happens on every
    /// exit path of a unit, so a failing unit cannot starve the pool.
    pub fn release_ticket(&mut self, succeeded: bool)
        requires
            old(self).wf(),
            old(self).spec_running() > 0,
            old(self).spec_completed() < usize::MAX,
            old(self).spec_failed() < usize::MAX,
        ensures
            final(self).wf(),
            final(self).spec_running() == old(self).spec_running() - 1,
            final(self).spec_queued() == old(self).spec_queued(),
            final(self).spec_jobs() == old(self).spec_jobs(),
            succeeded ==> final(self).spec_completed() == old(self).spec_completed() + 1
                && final(self).spec_failed() == old(self).spec_failed(),
            !succeeded ==> final(self).spec_failed() == old(self).spec_failed() + 1
                && final(self).spec_completed() == old(self).spec_completed(),
    {
        self.running = self.running - 1;
        if succeeded {
            self.completed = self.completed + 1;
        } else {
            self.failed = self.failed + 1;
        }
    }

    /// Whether the task graph has become fully quiescent: nothing runs,
    /// nothing is queued, and so nothing can submit more work.
    pub fn is_quiescent(&self) -> (r: bool)
        ensures
            r == self.spec_quiescent(),
    {
        self.queued == 0 && self.running == 0
    }

    /// The number of units currently holding a permit.
    pub fn running(&self) -> (r: usize)
        ensures
            r == self.spec_running(),
    {
        self.running
    }

    /// The number of units waiting for a permit.
    pub fn queued(&self) -> (r: usize)
        ensures
            r == self.spec_queued(),
    {
        self.queued
    }

    /// The number of units that finished, successfully or not.
    pub fn finished(&self) -> (r: (usize, usize))
        ensures
            r.0 == self.spec_completed(),
            r.1 == self.spec_failed(),
    {
        (self.completed, self.failed)
    }
}

/// Law: a quiescent queue is stable — neither starting nor finishing a unit
/// is possible, so without a fresh top-level submission the crawl stays
/// done once it is done.
pub proof fn lemma_quiescence_is_stable(q: Queue)
    requires
        q.wf(),
        q.spec_quiescent(),
    ensures
        !(q.spec_queued() > 0 && q.spec_running() < q.spec_jobs()),
        q.spec_running() == 0,
{
}

/// The accumulating request-rate limiter: a background ticker adds one
/// permit per tick, without a cap, and every outbound request removes one.
/// Idle periods therefore accumulate a burst that is spent immediately once
/// work resumes; only the sustained rate is bounded.
pub struct RateLimiter {
    rate: usize,
    available: u64,
}

impl RateLimiter {
    /// Well-formedness: the configured rate is positive.
    pub open spec fn wf(&self) -> bool {
        self.spec_rate() >= 1
    }

    /// The configured requests per minute.
    pub closed spec fn spec_rate(&self) -> usize {
        self.rate
    }

    /// The permits accumulated and not yet spent.
    pub closed spec fn spec_available(&self) -> u64 {
        self.available
    }

    /// Configures the limiter for the requested requests-per-minute rate;
    /// the accumulator starts empty, so the first request waits for the
    /// first tick. The ticker itself runs outside the library and fires
    /// every `60 / rate` seconds.
    pub fn set_download_rate(rate: usize) -> (r: RateLimiter)
        requires
            rate >= 1,
        ensures
            r.wf(),
            r.spec_rate() == rate,
            r.spec_available() == 0,
    {
        RateLimiter { rate, available: 0 }
    }

    /// One ticker firing: adds exactly one permit, unboundedly.
    pub fn tick(&mut self)
        requires
            old(self).wf(),
            old(self).spec_available() < u64::MAX,
        ensures
            final(self).wf(),
            final(self).spec_rate() == old(self).spec_rate(),
            final(self).spec_available() == old(self).spec_available() + 1,
    {
        self.available = self.available + 1;
    }

    /// The permits accumulated and not yet spent.
    pub fn available(&self) -> (r: u64)
        ensures
            r == self.spec_available(),
    {
        self.available
    }

    /// One outbound request claiming its permit: succeeds exactly when a
    /// permit is available; otherwise the caller must suspend until the
    /// next tick.
    pub fn get_request_ticket(&mut self) -> (granted: bool)
        requires
            old(self).wf(),
        ensures
            final(self).wf(),
            final(self).spec_rate() == old(self).spec_rate(),
            granted == (old(self).spec_available() > 0),
            granted ==> final(self).spec_available() == old(self).spec_available() - 1,
            !granted ==> *final(self) == *old(self),
    {
        if self.available > 0 {
            self.available = self.available - 1;
            true
        } else {
            false
        }
    }
}

} // verus!
