use apple_health_export::config::{default_bucket_name, normalize_prefix};
use apple_health_export::s3::{s3_key_for_device_date, sanitize_path_segment, Date};

#[test]
fn sanitize_replaces_every_reserved_character() {
    assert_eq!(sanitize_path_segment("a/b\\c?d#e%f\"g<h>i|j:k"), "a_b_c_d_e_f_g_h_i_j_k");
}

#[test]
fn sanitize_keeps_ordinary_names() {
    assert_eq!(sanitize_path_segment("watch-3 pro"), "watch-3 pro");
}

#[test]
fn sanitize_keeps_empty_names() {
    assert_eq!(sanitize_path_segment(""), "");
}

#[test]
fn sanitize_is_idempotent_on_a_messy_name() {
    let once = sanitize_path_segment("a/b:c");
    let twice = sanitize_path_segment(&once);
    assert_eq!(once, twice);
}

#[test]
fn device_name_with_separators_becomes_flat_segment() {
    assert_eq!(sanitize_path_segment("a/b:c"), "a_b_c");
}

#[test]
fn key_with_prefix() {
    let prefix = Some("exports/".to_string());
    let date = Date { year: 2025, month: 3, day: 7 };
    assert_eq!(
        s3_key_for_device_date(&prefix, "watch", date),
        "exports/watch/2025-03-07.json"
    );
}

#[test]
fn key_without_prefix() {
    let date = Date { year: 2025, month: 12, day: 31 };
    assert_eq!(s3_key_for_device_date(&None, "a/b:c", date), "a_b_c/2025-12-31.json");
}

#[test]
fn key_for_empty_device_name_is_degenerate_but_valid() {
    let date = Date { year: 2024, month: 1, day: 2 };
    assert_eq!(s3_key_for_device_date(&None, "", date), "/2024-01-02.json");
}

#[test]
fn key_is_deterministic() {
    let prefix = Some("p/".to_string());
    let date = Date { year: 2026, month: 10, day: 9 };
    let a = s3_key_for_device_date(&prefix, "dev:1", date);
    let b = s3_key_for_device_date(&prefix, "dev:1", date);
    assert_eq!(a, b);
}

#[test]
fn normalize_prefix_appends_missing_separator() {
    assert_eq!(normalize_prefix("exports".to_string()), "exports/");
}

#[test]
fn normalize_prefix_keeps_existing_separator() {
    assert_eq!(normalize_prefix("exports/".to_string()), "exports/");
}

#[test]
fn normalize_prefix_keeps_empty() {
    assert_eq!(normalize_prefix(String::new()), "");
}

#[test]
fn default_bucket_is_stable() {
    assert_eq!(default_bucket_name(), "user-apple-health-exports");
}
