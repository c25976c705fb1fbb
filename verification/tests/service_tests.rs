use apple_health_export::config::Config;
use apple_health_export::error::Error;
use apple_health_export::handlers::{admission_error, ingest, make_job, status_for_enqueue, IngestRequest};
use apple_health_export::json::JsonValue;
use apple_health_export::metrics::{dec_jobs_inflight, inc_ingest_request, inc_jobs_inflight, Metrics};
use apple_health_export::pool::WorkerPool;
use apple_health_export::s3::{date_from_parts, plan_job_step, today_utc, Date, FetchOutcome, IngestJob, JobStep};
use apple_health_export::state::{build_state, EnqueueResult};

fn test_config(queue_cap: usize) -> Config {
    Config {
        bucket: "bucket".to_string(),
        prefix: Some("exports".to_string()),
        bind: None,
        port: 8080,
        basic_user: Some("user".to_string()),
        basic_pass: Some("pass".to_string()),
        queue_cap,
        workers: 2,
        s3_path_style: true,
    }
}

fn job(device: &str) -> IngestJob {
    IngestJob {
        device_name: device.to_string(),
        payload: JsonValue::Array(vec![JsonValue::Num("1".to_string())]),
    }
}

#[test]
fn build_state_normalizes_prefix_and_joins_credentials() {
    let (state, _rx) = build_state(&test_config(4));
    assert_eq!(state.bucket, "bucket");
    assert_eq!(state.prefix.as_deref(), Some("exports/"));
    assert_eq!(state.basic_auth.as_deref(), Some("user:pass"));
}

#[test]
fn build_state_without_credentials_leaves_route_open() {
    let mut cfg = test_config(4);
    cfg.basic_pass = None;
    let (state, _rx) = build_state(&cfg);
    assert!(state.basic_auth.is_none());
}

#[test]
fn queue_of_capacity_one_admits_exactly_one_undrained_job() {
    let (state, _rx) = build_state(&test_config(1));
    let mut metrics = Metrics::new();
    let request = |d: &str| IngestRequest {
        device_name: d.to_string(),
        data: vec![JsonValue::Null],
    };
    assert_eq!(ingest(&mut metrics, &state.tx, "POST", request("watch")), 202);
    assert_eq!(ingest(&mut metrics, &state.tx, "POST", request("watch")), 503);
}

#[test]
fn closed_queue_is_an_internal_error() {
    let (state, rx) = build_state(&test_config(1));
    drop(rx);
    let mut metrics = Metrics::new();
    let r = ingest(
        &mut metrics,
        &state.tx,
        "POST",
        IngestRequest { device_name: "watch".to_string(), data: vec![JsonValue::Null] },
    );
    assert_eq!(r, 500);
}

#[test]
fn status_codes_cover_all_admission_outcomes() {
    assert_eq!(status_for_enqueue(&EnqueueResult::Queued), 202);
    assert_eq!(status_for_enqueue(&EnqueueResult::Full(job("d"))), 503);
    assert_eq!(status_for_enqueue(&EnqueueResult::Closed(job("d"))), 500);
}

#[test]
fn admission_errors_cover_all_refusals() {
    assert_eq!(admission_error(&EnqueueResult::Queued), None);
    assert_eq!(admission_error(&EnqueueResult::Full(job("d"))), Some(Error::QueueFull));
    assert_eq!(admission_error(&EnqueueResult::Closed(job("d"))), Some(Error::QueueClosed));
}

#[test]
fn two_concurrent_ingests_against_capacity_one_split_202_and_503() {
    let (state, _rx) = build_state(&test_config(1));
    let mut metrics = Metrics::new();
    let first = ingest(
        &mut metrics,
        &state.tx,
        "POST",
        IngestRequest { device_name: "watch".to_string(), data: vec![JsonValue::Null] },
    );
    let second = ingest(
        &mut metrics,
        &state.tx,
        "POST",
        IngestRequest { device_name: "watch".to_string(), data: vec![JsonValue::Null] },
    );
    assert_eq!(first, 202);
    assert_eq!(second, 503);
    assert_eq!(metrics.ingest_requests_total, 2);
    assert_eq!(metrics.jobs_inflight, 0);
}

#[test]
fn metrics_count_requests_and_balance_the_gauge() {
    let mut m = Metrics::new();
    inc_ingest_request(&mut m, "POST", Some("watch"));
    inc_ingest_request(&mut m, "POST", None);
    assert_eq!(m.ingest_requests_total, 2);
    inc_jobs_inflight(&mut m);
    inc_jobs_inflight(&mut m);
    dec_jobs_inflight(&mut m);
    dec_jobs_inflight(&mut m);
    assert_eq!(m.jobs_inflight, 0);
}

#[test]
fn gauge_returns_to_zero_once_all_jobs_are_terminal() {
    let mut m = Metrics::new();
    let mut pool = WorkerPool::new(2);
    assert_eq!(pool.workers, 2);
    pool.begin_job(&mut m);
    pool.begin_job(&mut m);
    assert_eq!(m.jobs_inflight, 2);
    pool.finish_job(&mut m);
    assert_eq!(m.jobs_inflight, 1);
    pool.finish_job(&mut m);
    assert_eq!(m.jobs_inflight, 0);
    assert_eq!(pool.busy, 0);
}

#[test]
fn zero_configured_workers_still_run_one() {
    let pool = WorkerPool::new(0);
    assert_eq!(pool.workers, 1);
}

#[test]
fn plan_merges_into_existing_document() {
    let existing = JsonValue::Array(vec![JsonValue::Num("1".to_string())]);
    let incoming = JsonValue::Array(vec![JsonValue::Num("2".to_string())]);
    match plan_job_step(FetchOutcome::Existing(existing), incoming) {
        JobStep::Store(m) => assert_eq!(
            m,
            JsonValue::Array(vec![
                JsonValue::Num("1".to_string()),
                JsonValue::Num("2".to_string()),
            ])
        ),
        JobStep::Discard(_) => panic!("an existing document must be merged, not discarded"),
    }
}

#[test]
fn plan_creates_fresh_document_when_absent() {
    let incoming = JsonValue::Array(vec![JsonValue::Bool(true)]);
    match plan_job_step(FetchOutcome::Absent, incoming) {
        JobStep::Store(m) => assert_eq!(m, JsonValue::Array(vec![JsonValue::Bool(true)])),
        JobStep::Discard(_) => panic!("an absent document must be created, not discarded"),
    }
}

#[test]
fn plan_discards_unreadable_document_as_parse_error() {
    match plan_job_step(FetchOutcome::Unreadable, JsonValue::Null) {
        JobStep::Discard(e) => assert_eq!(e, Error::ParseError),
        JobStep::Store(_) => panic!("unreadable stored content must abort the job"),
    }
}

#[test]
fn plan_discards_unreachable_store_as_fetch_error() {
    match plan_job_step(FetchOutcome::Unavailable, JsonValue::Null) {
        JobStep::Discard(e) => assert_eq!(e, Error::FetchError),
        JobStep::Store(_) => panic!("a failed fetch must abort the job"),
    }
}

#[test]
fn error_descriptions_are_stable() {
    assert_eq!(Error::QueueFull.describe(), "queue full");
    assert_eq!(Error::QueueClosed.describe(), "queue closed");
    assert_eq!(Error::FetchError.describe(), "fetch failed");
    assert_eq!(Error::ParseError.describe(), "stored content not valid JSON");
    assert_eq!(Error::WriteError.describe(), "write failed");
}

#[test]
fn todays_date_is_a_calendar_day() {
    let d = today_utc().expect("the current year fits the key format");
    assert!((1..=12).contains(&d.month));
    assert!((1..=31).contains(&d.day));
    assert!(d.year >= 2020 && d.year <= 9999);
}

#[test]
fn make_job_carries_name_and_batch_as_one_array() {
    let payload = IngestRequest {
        device_name: "watch".to_string(),
        data: vec![JsonValue::Num("70".to_string()), JsonValue::Bool(false)],
    };
    let j = make_job(payload);
    assert_eq!(j.device_name, "watch");
    assert_eq!(
        j.payload,
        JsonValue::Array(vec![JsonValue::Num("70".to_string()), JsonValue::Bool(false)])
    );
}

#[test]
fn make_job_of_empty_batch_is_an_empty_array() {
    let j = make_job(IngestRequest { device_name: "d".to_string(), data: vec![] });
    assert_eq!(j.payload, JsonValue::Array(vec![]));
}

#[test]
fn dates_inside_the_key_range_are_kept_unchanged() {
    assert_eq!(date_from_parts(2026, 10, 9), Some(Date { year: 2026, month: 10, day: 9 }));
    assert_eq!(date_from_parts(0, 1, 1), Some(Date { year: 0, month: 1, day: 1 }));
    assert_eq!(date_from_parts(9999, 12, 31), Some(Date { year: 9999, month: 12, day: 31 }));
}

#[test]
fn dates_outside_the_key_range_are_absent() {
    assert_eq!(date_from_parts(-1, 1, 1), None);
    assert_eq!(date_from_parts(10000, 1, 1), None);
}
