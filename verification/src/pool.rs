//! The worker pool's observable state: a fixed set of workers draining the
//! admission queue, at most one job each at a time. Scheduling the workers is
//! the runtime's business; this model carries what the core guarantees about
//! concurrency and the in-flight gauge.

use vstd::prelude::*;
use crate::metrics::{dec_jobs_inflight, inc_jobs_inflight, Metrics};

verus! {

/// How many workers exist and how many hold a job right now.
#[derive(Debug, Clone, Copy, PartialEq, Eq, Structural)]
pub struct WorkerPool {
    pub workers: usize,
    pub busy: usize,
}

impl WorkerPool {
    /// The pool's invariant: at least one worker, never more jobs held than
    /// workers, and a worker count the gauge can mirror.
    pub open spec fn wf(&self) -> bool {
        1 <= self.workers && self.busy <= self.workers && self.workers <= i64::MAX
    }

    /// The gauge agrees with the pool: it reads exactly the number of jobs
    /// some worker is processing.
    pub open spec fn gauge_matches(&self, m: Metrics) -> bool {
        m.jobs_inflight == self.busy
    }

    /// A fresh pool: a configured count of zero is raised to one, and every
    /// worker starts idle.
    pub fn new(workers: usize) -> (p: WorkerPool)
        requires
            workers <= i64::MAX,
        ensures
            p.wf(),
            p.busy == 0,
            p.workers == if workers == 0 { 1usize } else { workers },
    {
        WorkerPool { workers: if workers == 0 { 1 } else { workers }, busy: 0 }
    }

    /// A worker that has dequeued a job begins the merge: one more worker is
    /// busy and the gauge rises with it.
    pub fn begin_job(&mut self, m: &mut Metrics)
        requires
            old(self).wf(),
            old(self).busy < old(self).workers,
            old(self).gauge_matches(*old(m)),
        ensures
            final(self).wf(),
            final(self).workers == old(self).workers,
            final(self).busy == old(self).busy + 1,
            final(self).gauge_matches(*final(m)),
            final(m).ingest_requests_total == old(m).ingest_requests_total,
    {
        inc_jobs_inflight(m);
        self.busy = self.busy + 1;
    }

    /// A worker finished its job, stored or discarded alike: it goes idle
    /// and the gauge falls with it.
    pub fn finish_job(&mut self, m: &mut Metrics)
        requires
            old(self).wf(),
            old(self).busy >= 1,
            old(self).gauge_matches(*old(m)),
        ensures
            final(self).wf(),
            final(self).workers == old(self).workers,
            final(self).busy == old(self).busy - 1,
            final(self).gauge_matches(*final(m)),
            final(m).ingest_requests_total == old(m).ingest_requests_total,
    {
        dec_jobs_inflight(m);
        self.busy = self.busy - 1;
    }
}

/// Law: no more merges run concurrently than there are workers; the pool's
/// invariant bounds the busy count by the worker count at every state.
pub proof fn lemma_concurrency_bounded(p: WorkerPool)
    requires
        p.wf(),
    ensures
        p.busy <= p.workers,
{
}

/// Law: once every job has reached a terminal state — no worker holds one —
/// a gauge that mirrored the pool reads exactly zero.
pub proof fn lemma_gauge_drained(p: WorkerPool, m: Metrics)
    requires
        p.gauge_matches(m),
    ensures
        p.busy == 0 <==> m.jobs_inflight == 0,
{
}

} // verus!
