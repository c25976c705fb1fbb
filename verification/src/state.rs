//! The shared application state and the bounded admission queue behind it.
//!
//! The queue is tokio's bounded multi-producer channel; the consumer side is
//! shared by all workers outside the core, locked only around a dequeue. The
//! core holds the producer side and enqueues without blocking.

use vstd::prelude::*;
use crate::config::{normalize_prefix, spec_normalize_prefix, Config};
use crate::s3::IngestJob;
use crate::text::push_char;

verus! {

#[verifier::external_type_specification]
#[verifier::external_body]
#[verifier::reject_recursive_types(T)]
pub struct ExSender<T>(tokio::sync::mpsc::Sender<T>);

#[verifier::external_type_specification]
#[verifier::external_body]
#[verifier::reject_recursive_types(T)]
pub struct ExReceiver<T>(tokio::sync::mpsc::Receiver<T>);

/// What one non-blocking enqueue attempt came to. A refused job comes back
/// to the caller unchanged.
#[derive(Debug)]
pub enum EnqueueResult {
    /// The job was buffered; a worker will pick it up.
    Queued,
    /// The queue held as many jobs as its capacity allows.
    Full(IngestJob),
    /// The consumer side is gone; nothing will drain the queue again.
    Closed(IngestJob),
}

/// The largest capacity tokio's bounded channel accepts; above it, as at
/// zero, `mpsc::channel` panics.
pub const MAX_QUEUE_CAP: usize = usize::MAX >> 3;

/// The capacity the bounded channel behind this producer handle was created
/// with: fixed at construction and immutable afterwards.
pub uninterp spec fn queue_capacity_of(tx: tokio::sync::mpsc::Sender<IngestJob>) -> nat;

/// Relies on tokio's `mpsc::channel`: the two ends of a fresh bounded
/// first-in-first-out channel of exactly the given capacity, which must be
/// positive and at most [`MAX_QUEUE_CAP`].
#[verifier::external_body]
fn new_job_channel(cap: usize) -> (r: (
    tokio::sync::mpsc::Sender<IngestJob>,
    tokio::sync::mpsc::Receiver<IngestJob>,
))
    requires
        1 <= cap <= MAX_QUEUE_CAP,
    ensures
        queue_capacity_of(r.0) == cap,
{
    tokio::sync::mpsc::channel(cap)
}

/// Relies on tokio's `Sender::try_send`: never blocks; buffers the job, or
/// returns it inside `Full` when the queue is at capacity, or inside
/// `Closed` when the receiver is gone.
#[verifier::external_body]
pub(crate) fn try_enqueue(tx: &tokio::sync::mpsc::Sender<IngestJob>, job: IngestJob) -> (r: EnqueueResult)
    ensures
        match r {
            EnqueueResult::Queued => true,
            EnqueueResult::Full(j) => j == job,
            EnqueueResult::Closed(j) => j == job,
        },
{
    match tx.try_send(job) {
        Ok(()) => EnqueueResult::Queued,
        Err(tokio::sync::mpsc::error::TrySendError::Full(j)) => EnqueueResult::Full(j),
        Err(tokio::sync::mpsc::error::TrySendError::Closed(j)) => EnqueueResult::Closed(j),
    }
}

/// The state shared by every request handler: where documents go, how the
/// ingest route is guarded, and the producer side of the admission queue.
pub struct AppState {
    pub bucket: String,
    /// Normalized: empty or ending in `/`.
    pub prefix: Option<String>,
    /// The expected credentials as `user:pass`, when the route is guarded.
    pub basic_auth: Option<String>,
    pub tx: tokio::sync::mpsc::Sender<IngestJob>,
}

/// The `user:pass` line the auth check expects, when both halves are
/// configured.
pub open spec fn spec_basic_auth(user: Option<Seq<char>>, pass: Option<Seq<char>>) -> Option<
    Seq<char>,
> {
    match (user, pass) {
        (Option::Some(u), Option::Some(p)) => Some(u + seq![':'] + p),
        _ => None,
    }
}

/// Builds the shared state from the configuration: the prefix is
/// normalized, the credentials are joined, and a fresh admission queue of
/// the configured capacity is created. The receiver half goes to the worker
/// pool.
pub fn build_state(config: &Config) -> (r: (AppState, tokio::sync::mpsc::Receiver<IngestJob>))
    requires
        1 <= config.queue_cap <= MAX_QUEUE_CAP,
    ensures
        queue_capacity_of(r.0.tx) == config.queue_cap,
        r.0.bucket@ == config.bucket@,
        r.0.prefix matches Some(p) <==> config.prefix is Some,
        r.0.prefix matches Some(p) ==> (config.prefix matches Some(c) && p@
            == spec_normalize_prefix(c@)),
        r.0.basic_auth matches Some(a) <==> spec_basic_auth(
            match config.basic_user {
                Option::None => None,
                Option::Some(u) => Some(u@),
            },
            match config.basic_pass {
                Option::None => None,
                Option::Some(p) => Some(p@),
            },
        ) is Some,
        r.0.basic_auth matches Some(a) ==> Some(a@) == spec_basic_auth(
            match config.basic_user {
                Option::None => None,
                Option::Some(u) => Some(u@),
            },
            match config.basic_pass {
                Option::None => None,
                Option::Some(p) => Some(p@),
            },
        ),
{
    let (tx, rx) = new_job_channel(config.queue_cap);
    let prefix = match &config.prefix {
        Option::Some(p) => Some(normalize_prefix(p.clone())),
        Option::None => None,
    };
    let basic_auth = match (&config.basic_user, &config.basic_pass) {
        (Option::Some(u), Option::Some(p)) => {
            let mut joined = u.clone();
            push_char(&mut joined, ':');
            joined.append(p.as_str());
            proof {
                assert(joined@ =~= u@ + seq![':'] + p@);
            }
            Some(joined)
        },
        _ => None,
    };
    (AppState { bucket: config.bucket.clone(), prefix, basic_auth, tx }, rx)
}

/// Whether a non-blocking enqueue succeeds at a given queue occupancy, for
/// the configured capacity.
pub open spec fn spec_admits(occ: nat, cap: nat) -> bool {
    occ < cap
}

/// Queue occupancy after a number of enqueue attempts against an initially
/// empty queue that nothing drains meanwhile.
pub open spec fn spec_occupancy_after(n: nat, cap: nat) -> nat
    decreases n,
{
    if n == 0 {
        0
    } else {
        let prev = spec_occupancy_after((n - 1) as nat, cap);
        if spec_admits(prev, cap) {
            (prev + 1) as nat
        } else {
            prev
        }
    }
}

/// While attempts are admitted, each one raises the occupancy by exactly
/// one: the first `cap` attempts fill the queue to `n` jobs after `n`
/// attempts.
pub proof fn lemma_occupancy_counts_attempts(n: nat, cap: nat)
    requires
        n <= cap,
    ensures
        spec_occupancy_after(n, cap) == n,
    decreases n,
{
    if n > 0 {
        lemma_occupancy_counts_attempts((n - 1) as nat, cap);
    }
}

/// Law: against an undrained queue of capacity `cap`, exactly the first
/// `cap` enqueue attempts are admitted, and the attempt after them is
/// refused as full.
pub proof fn lemma_queue_backpressure(cap: nat)
    ensures
        forall|i: nat| i < cap ==> spec_admits(#[trigger] spec_occupancy_after(i, cap), cap),
        !spec_admits(spec_occupancy_after(cap, cap), cap),
{
    assert forall|i: nat| i < cap implies spec_admits(
        #[trigger] spec_occupancy_after(i, cap),
        cap,
    ) by {
        lemma_occupancy_counts_attempts(i, cap);
    }
    lemma_occupancy_counts_attempts(cap, cap);
}

} // verus!
