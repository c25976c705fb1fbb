//! Admission of one ingest request: count it, form the job, attempt a
//! non-blocking enqueue, and map the queue's answer to the caller-visible
//! status. Routing, body parsing and the HTTP response itself live outside
//! the core.

use vstd::prelude::*;
use crate::error::Error;
use crate::json::JsonValue;
use crate::metrics::{inc_ingest_request, Metrics};
use crate::s3::IngestJob;
use crate::state::{try_enqueue, EnqueueResult};

verus! {

/// One parsed ingest request: the submitting device and its batch of items.
#[derive(Debug)]
pub struct IngestRequest {
    pub device_name: String,
    pub data: Vec<JsonValue>,
}

/// The HTTP status each admission outcome maps to: accepted, temporarily
/// unavailable under backpressure, or an internal error when nothing will
/// ever drain the queue again.
pub fn status_for_enqueue(r: &EnqueueResult) -> (status: u16)
    ensures
        (status == 202) <==> (r is Queued),
        (status == 503) <==> (r is Full),
        (status == 500) <==> (r is Closed),
{
    match r {
        EnqueueResult::Queued => 202,
        EnqueueResult::Full(_) => 503,
        EnqueueResult::Closed(_) => 500,
    }
}

/// The admission failure each refused enqueue stands for; an admitted job
/// has none.
pub fn admission_error(r: &EnqueueResult) -> (e: Option<Error>)
    ensures
        (e is None) <==> (r is Queued),
        (e == Some(Error::QueueFull)) <==> (r is Full),
        (e == Some(Error::QueueClosed)) <==> (r is Closed),
{
    match r {
        EnqueueResult::Queued => None,
        EnqueueResult::Full(_) => Some(Error::QueueFull),
        EnqueueResult::Closed(_) => Some(Error::QueueClosed),
    }
}

/// Forms the job a request admits: the request's device name, unchanged,
/// and its batch of items as exactly one JSON array.
pub fn make_job(payload: IngestRequest) -> (job: IngestJob)
    ensures
        job.device_name == payload.device_name,
        job.payload == JsonValue::Array(payload.data),
{
    IngestJob { device_name: payload.device_name, payload: JsonValue::Array(payload.data) }
}

/// Handles one accepted ingest request: counts it, wraps the batch as one
/// JSON array inside a job through [`make_job`], and attempts a
/// non-blocking enqueue of that job. The caller sees only the admission
/// status; no completion signal ever follows, and the call never suspends.
pub fn ingest(
    metrics: &mut Metrics,
    tx: &tokio::sync::mpsc::Sender<IngestJob>,
    method: &str,
    payload: IngestRequest,
) -> (status: u16)
    requires
        old(metrics).ingest_requests_total < u64::MAX,
    ensures
        final(metrics).ingest_requests_total == old(metrics).ingest_requests_total + 1,
        final(metrics).jobs_inflight == old(metrics).jobs_inflight,
        status == 202 || status == 503 || status == 500,
{
    inc_ingest_request(metrics, method, Some(payload.device_name.as_str()));
    let job = make_job(payload);
    let r = try_enqueue(tx, job);
    status_for_enqueue(&r)
}

} // verus!
