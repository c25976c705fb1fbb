//! Centralized metrics instruments used across the core: one counter of
//! ingest requests and one in-flight gauge, carried as an explicit registry
//! object rather than ambient global state. Exporting the numbers to a
//! telemetry backend is an external concern.

use vstd::prelude::*;

verus! {

/// The two instruments the core maintains.
#[derive(Debug, Clone, Copy, PartialEq, Eq, Structural)]
pub struct Metrics {
    /// Total ingest requests seen, accepted or rejected alike.
    pub ingest_requests_total: u64,
    /// Number of jobs a worker is processing right now.
    pub jobs_inflight: i64,
}

impl Metrics {
    /// A fresh registry: nothing counted, nothing in flight.
    pub fn new() -> (m: Metrics)
        ensures
            m.ingest_requests_total == 0,
            m.jobs_inflight == 0,
    {
        Metrics { ingest_requests_total: 0, jobs_inflight: 0 }
    }
}

/// Counts one ingest request, whatever its admission outcome. The method and
/// device labels are carried to the telemetry layer outside the core.
pub fn inc_ingest_request(m: &mut Metrics, _method: &str, _device_name: Option<&str>)
    requires
        old(m).ingest_requests_total < u64::MAX,
    ensures
        final(m).ingest_requests_total == old(m).ingest_requests_total + 1,
        final(m).jobs_inflight == old(m).jobs_inflight,
{
    m.ingest_requests_total = m.ingest_requests_total + 1;
}

/// Raises the in-flight gauge by one: a worker began processing a job.
pub fn inc_jobs_inflight(m: &mut Metrics)
    requires
        old(m).jobs_inflight < i64::MAX,
    ensures
        final(m).jobs_inflight == old(m).jobs_inflight + 1,
        final(m).ingest_requests_total == old(m).ingest_requests_total,
{
    m.jobs_inflight = m.jobs_inflight + 1;
}

/// Lowers the in-flight gauge by one: a worker finished a job, successfully
/// or not.
pub fn dec_jobs_inflight(m: &mut Metrics)
    requires
        old(m).jobs_inflight > i64::MIN,
    ensures
        final(m).jobs_inflight == old(m).jobs_inflight - 1,
        final(m).ingest_requests_total == old(m).ingest_requests_total,
{
    m.jobs_inflight = m.jobs_inflight - 1;
}

} // verus!
