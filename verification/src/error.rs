//! The failure taxonomy of the ingestion core. Admission failures are the
//! only ones a caller ever sees; every post-admission failure is terminal for
//! its job and invisible to the original requester.

use vstd::prelude::*;

verus! {

/// Every way the core can fail a request or a job.
#[derive(Debug, Clone, Copy, PartialEq, Eq, Structural)]
pub enum Error {
    /// The admission queue was at capacity; transient backpressure.
    QueueFull,
    /// The admission queue's consumer side is gone; hard failure.
    QueueClosed,
    /// The stored object could not be fetched, for a reason other than
    /// its absence.
    FetchError,
    /// The stored object's content was not valid JSON.
    ParseError,
    /// The merged document could not be written back.
    WriteError,
}

impl Error {
    /// A short stable name for logs.
    pub fn describe(&self) -> (r: &'static str)
        ensures
            r@ == match self {
                Error::QueueFull => "queue full"@,
                Error::QueueClosed => "queue closed"@,
                Error::FetchError => "fetch failed"@,
                Error::ParseError => "stored content not valid JSON"@,
                Error::WriteError => "write failed"@,
            },
    {
        match self {
            Error::QueueFull => "queue full",
            Error::QueueClosed => "queue closed",
            Error::FetchError => "fetch failed",
            Error::ParseError => "stored content not valid JSON",
            Error::WriteError => "write failed",
        }
    }
}

} // verus!
