//! Reconciler, failure-detector and trimming tests.

use migration_core::data::{MigrationDescriptor, MigrationRecord};
use migration_core::detect::detect_failed_migrations;
use migration_core::reconcile::unapplied_migrations;
use migration_core::text::trim_chars;

fn desc(name: &str) -> MigrationDescriptor {
    MigrationDescriptor {
        name: name.to_string(),
        script: "script".to_string(),
        before_hook: None,
        before_state: None,
        after_hook: None,
        after_state: None,
    }
}

fn record(
    name: &str,
    finished_at: Option<i64>,
    rolled_back_at: Option<i64>,
    logs: Option<&str>,
) -> MigrationRecord {
    MigrationRecord {
        id: format!("id-{name}"),
        migration_name: name.to_string(),
        started_at: 7,
        finished_at,
        rolled_back_at,
        logs: logs.map(|s| s.to_string()),
    }
}

fn names(v: &[MigrationDescriptor]) -> Vec<String> {
    v.iter().map(|d| d.name.clone()).collect()
}

#[test]
fn reconcile_keeps_order_and_skips_applied() {
    let descs = vec![desc("a"), desc("b"), desc("c")];
    let recs = vec![record("b", Some(1), None, None)];
    let r = unapplied_migrations(descs, &recs);
    assert_eq!(names(&r), vec!["a".to_string(), "c".to_string()]);
}

#[test]
fn reconcile_empty_history_keeps_all() {
    let descs = vec![desc("a"), desc("b")];
    let r = unapplied_migrations(descs, &vec![]);
    assert_eq!(names(&r), vec!["a".to_string(), "b".to_string()]);
}

#[test]
fn rolled_back_record_is_eligible_again() {
    let descs = vec![desc("a"), desc("b")];
    let recs = vec![
        record("a", Some(1), Some(2), None),
        record("b", Some(1), None, None),
    ];
    let r = unapplied_migrations(descs, &recs);
    assert_eq!(names(&r), vec!["a".to_string()]);
}

#[test]
fn unfinished_record_still_counts_as_applied_for_skip() {
    // An unfinished, non-rolled-back record is rejected by the failure
    // detector; the reconciler itself does not require `finished_at`.
    let descs = vec![desc("a")];
    let recs = vec![record("a", None, None, None)];
    let r = unapplied_migrations(descs, &recs);
    assert_eq!(names(&r), Vec::<String>::new());
}

#[test]
fn record_without_descriptor_is_ignored() {
    let descs = vec![desc("a")];
    let recs = vec![record("zzz", Some(1), None, None)];
    let r = unapplied_migrations(descs, &recs);
    assert_eq!(names(&r), vec!["a".to_string()]);
}

#[test]
fn detect_passes_on_clean_history() {
    let recs = vec![
        record("a", Some(1), None, None),
        record("b", None, Some(2), None),
    ];
    assert!(detect_failed_migrations(&recs).is_ok());
}

#[test]
fn detect_reports_incomplete_records_in_order() {
    let recs = vec![
        record("a", None, None, Some("  first failure\n")),
        record("b", Some(1), None, None),
        record("c", None, None, None),
    ];
    let report = detect_failed_migrations(&recs).unwrap_err();
    assert_eq!(report.failures.len(), 2);
    assert_eq!(report.failures[0].migration_name, "a".to_string());
    assert_eq!(report.failures[0].started_at, 7);
    assert_eq!(report.failures[0].logs, Some("first failure".to_string()));
    assert_eq!(report.failures[1].migration_name, "c".to_string());
    assert_eq!(report.failures[1].logs, None);
}

#[test]
fn detect_drops_whitespace_only_logs() {
    let recs = vec![record("a", None, None, Some(" \t \n"))];
    let report = detect_failed_migrations(&recs).unwrap_err();
    assert_eq!(report.failures[0].logs, None);
}

#[test]
fn detect_empty_history_is_ok() {
    assert!(detect_failed_migrations(&vec![]).is_ok());
}

#[test]
fn report_details_text_matches_format() {
    let recs = vec![
        record("a", None, None, Some("  first failure\n")),
        record("c", None, None, None),
    ];
    let report = detect_failed_migrations(&recs).unwrap_err();
    let expected = "The `a` migration started at 7 failed with the following logs:\nfirst failure\nThe `c` migration started at 7 failed\n";
    assert_eq!(report.details(), expected.to_string());
}

#[test]
fn report_details_renders_timestamps() {
    let mut r1 = record("neg", None, None, None);
    r1.started_at = -1234567890123;
    let mut r2 = record("zero", None, None, None);
    r2.started_at = 0;
    let mut r3 = record("min", None, None, None);
    r3.started_at = i64::MIN;
    let report = detect_failed_migrations(&vec![r1, r2, r3]).unwrap_err();
    let expected = "The `neg` migration started at -1234567890123 failed\n\
                    The `zero` migration started at 0 failed\n\
                    The `min` migration started at -9223372036854775808 failed\n";
    assert_eq!(report.details(), expected.to_string());
}

#[test]
fn trim_removes_surrounding_whitespace() {
    assert_eq!(trim_chars("  a b\t"), "a b".to_string());
    assert_eq!(trim_chars("\r\nboom\n"), "boom".to_string());
}

#[test]
fn trim_of_whitespace_is_empty() {
    assert_eq!(trim_chars(""), String::new());
    assert_eq!(trim_chars("   \t\r\n"), String::new());
}

#[test]
fn trim_keeps_inner_text_unchanged() {
    assert_eq!(trim_chars("x"), "x".to_string());
    assert_eq!(trim_chars("no trim needed"), "no trim needed".to_string());
}
