//! Core of a JSON ingestion service: admission of measurement batches under
//! queue backpressure, a fixed worker pool draining that queue, and a
//! fetch-merge-write engine that folds each batch into a per-device,
//! per-day JSON document in a remote object store.

pub mod auth;
pub mod config;
pub mod error;
pub mod handlers;
pub mod json;
pub mod metrics;
pub mod pool;
pub mod s3;
pub mod state;
pub mod text;
