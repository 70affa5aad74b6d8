use spaghetti_catalog::discovery::{
    clamp_reason, degraded_reason, sort_time, sort_time_source, SortTimeSource, SourceScan,
    MAX_DEGRADED_REASON_CHARS,
};

#[test]
fn reasons_are_clamped_to_their_column_in_characters() {
    let short = "x".repeat(MAX_DEGRADED_REASON_CHARS);
    assert_eq!(clamp_reason(short.clone()), short);
    let long = "é".repeat(600);
    let clamped = clamp_reason(long);
    assert_eq!(clamped.chars().count(), MAX_DEGRADED_REASON_CHARS);
    assert!(clamped.ends_with('\u{2026}'));
    assert!(clamped.starts_with(&"é".repeat(511)));
}

#[test]
fn a_degraded_scan_has_no_rows_and_a_clamped_reason() {
    let scan = SourceScan::degraded(7, "codex", format!("io_error: {}", "/very/long/path/".repeat(100)));
    assert_eq!(scan.source_instance_id, 7);
    assert_eq!(scan.adapter_id, "codex");
    assert!(scan.projects.is_empty() && scan.sessions.is_empty() && scan.conflicts.is_empty());
    assert_eq!(scan.degraded_reason.unwrap().chars().count(), MAX_DEGRADED_REASON_CHARS);
    assert_eq!(degraded_reason("source_busy", "locked"), "source_busy: locked");
}

#[test]
fn unknown_activity_times_stay_empty_instead_of_becoming_the_epoch() {
    let updated = Some("2026-02-01".to_owned());
    let created = Some("2026-01-01".to_owned());
    assert_eq!(sort_time(&updated, &created, Some(5), "m"), "2026-02-01");
    assert_eq!(sort_time(&None, &created, Some(5), "m"), "2026-01-01");
    assert_eq!(sort_time(&None, &None, Some(5), "m"), "m");
    assert_eq!(sort_time(&None, &None, Some(0), "m"), "");
    assert_eq!(sort_time(&None, &None, None, "m"), "");
    assert_eq!(sort_time_source(&None, &None, Some(12)), SortTimeSource::SourceModified(12));
}

#[test]
fn only_a_complete_scan_owns_its_source_membership() {
    let degraded = SourceScan::degraded(7, "codex", "io_error: unreadable".to_owned());
    assert!(!degraded.owns_membership());
    let complete = SourceScan { degraded_reason: None, ..degraded };
    assert!(complete.owns_membership());
}
