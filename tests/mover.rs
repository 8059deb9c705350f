use autosort::mover::{conflict_action, fallback_name, rename_candidate, ConflictAction, RENAME_ATTEMPTS};
use autosort::schema::ConflictResolution;

#[test]
fn rename_yields_numbered_names() {
    assert_eq!(rename_candidate("report", "pdf", 1), Some("report (1).pdf".to_string()));
    assert_eq!(rename_candidate("report", "pdf", 2), Some("report (2).pdf".to_string()));
    assert_eq!(rename_candidate("Makefile", "", 12), Some("Makefile (12)".to_string()));
}

#[test]
fn rename_candidates_are_distinct_until_the_bound() {
    let mut seen = std::collections::HashSet::new();
    for n in 1..=RENAME_ATTEMPTS {
        assert!(seen.insert(rename_candidate("a", "txt", n).unwrap()));
    }
    assert_eq!(rename_candidate("a", "txt", RENAME_ATTEMPTS + 1), None);
    assert_eq!(rename_candidate("a", "txt", 0), None);
}

#[test]
fn fallback_name_keeps_file_name() {
    let a = fallback_name("report.pdf");
    let b = fallback_name("report.pdf");
    assert!(a.ends_with("_report.pdf"));
    assert_eq!(a.len(), 36 + "_report.pdf".len());
    assert_ne!(a, b);
}

#[test]
fn conflict_policies() {
    assert_eq!(conflict_action(ConflictResolution::Skip, false), ConflictAction::Proceed);
    assert_eq!(conflict_action(ConflictResolution::Skip, true), ConflictAction::Skip);
    assert_eq!(conflict_action(ConflictResolution::Overwrite, true), ConflictAction::Proceed);
    assert_eq!(conflict_action(ConflictResolution::Rename, true), ConflictAction::Rename);
    assert_eq!(conflict_action(ConflictResolution::Ask, true), ConflictAction::Rename);
}

#[test]
fn large_attempt_numbers_are_written_in_decimal() {
    assert_eq!(rename_candidate("x", "y", 1000), Some("x (1000).y".to_string()));
    assert_eq!(rename_candidate("x", "y", 10), Some("x (10).y".to_string()));
}
