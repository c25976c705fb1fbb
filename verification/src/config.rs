//! Startup configuration consumed by the core's constructors: bucket, key
//! prefix, bind address, queue capacity, worker count and the optional HTTP
//! Basic Authentication pair.

use vstd::prelude::*;
use crate::text::{ends_with_char, push_char};

verus! {

/// The process configuration, as plain values. Argument and environment
/// parsing lives outside the core and hands a finished `Config` in.
#[derive(Debug, Clone)]
pub struct Config {
    /// Object-store bucket that holds the per-device, per-day documents.
    pub bucket: String,
    /// Optional key prefix inside the bucket.
    pub prefix: Option<String>,
    /// Bind address; when absent, `port` is used on all interfaces.
    pub bind: Option<String>,
    /// Port to listen on when `bind` is not given.
    pub port: u16,
    /// Basic auth username, if the ingest route is to be guarded.
    pub basic_user: Option<String>,
    /// Basic auth password, if the ingest route is to be guarded.
    pub basic_pass: Option<String>,
    /// Capacity of the admission queue.
    pub queue_cap: usize,
    /// Number of background worker tasks.
    pub workers: usize,
    /// Whether to address the object store path-style.
    pub s3_path_style: bool,
}

/// A non-empty prefix gains a trailing separator if it lacks one; an empty
/// prefix stays empty.
pub open spec fn spec_normalize_prefix(p: Seq<char>) -> Seq<char> {
    if p.len() > 0 && p.last() != '/' {
        p.push('/')
    } else {
        p
    }
}

/// Normalizes a key prefix so that a non-empty one always ends in `/`.
pub fn normalize_prefix(p: String) -> (r: String)
    ensures
        r@ == spec_normalize_prefix(p@),
{
    let mut p = p;
    if !p.as_str().is_empty() && !ends_with_char(p.as_str(), '/') {
        push_char(&mut p, '/');
    }
    p
}

/// Law: prefix normalization is idempotent.
pub proof fn lemma_normalize_prefix_idempotent(p: Seq<char>)
    ensures
        spec_normalize_prefix(spec_normalize_prefix(p)) == spec_normalize_prefix(p),
{
}

/// The bucket used when none is configured.
pub fn default_bucket_name() -> (r: String)
    ensures
        r@ == "user-apple-health-exports"@,
{
    "user-apple-health-exports".to_owned()
}

} // verus!
