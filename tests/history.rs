use autosort::history::{History, MoveRecord, UndoError};

fn record(id: &str, timestamp: i64) -> MoveRecord {
    MoveRecord {
        id: id.to_string(),
        original_path: format!("/downloads/{}.txt", id),
        new_path: format!("/sorted/Documents/{}.txt", id),
        rule_name: "Documents".to_string(),
        timestamp,
        file_size: 10,
        can_undo: true,
    }
}

fn ids(h: &History) -> Vec<String> {
    h.get_all().into_iter().map(|r| r.id).collect()
}

#[test]
fn limit_two_keeps_newest_first() {
    let mut h = History::new(2);
    h.add(record("A", 1));
    h.add(record("B", 2));
    h.add(record("C", 3));
    assert_eq!(ids(&h), vec!["C", "B"]);
}

#[test]
fn limit_zero_keeps_nothing() {
    let mut h = History::new(0);
    h.add(record("A", 1));
    assert_eq!(h.len(), 0);
}

#[test]
fn recent_and_find() {
    let mut h = History::new(10);
    h.add(record("A", 1));
    h.add(record("B", 2));
    h.add(record("C", 3));
    let recent: Vec<String> = h.get_recent(2).into_iter().map(|r| r.id).collect();
    assert_eq!(recent, vec!["C", "B"]);
    assert_eq!(h.get_recent(99).len(), 3);
    assert_eq!(h.find(&"B".to_string()).unwrap().timestamp, 2);
    assert!(h.find(&"Z".to_string()).is_none());
}

#[test]
fn from_records_truncates() {
    let h = History::from_records(vec![record("A", 3), record("B", 2), record("C", 1)], 2);
    assert_eq!(ids(&h), vec!["A", "B"]);
}

#[test]
fn undo_source_missing_leaves_log_unchanged() {
    let mut h = History::new(5);
    h.add(record("A", 1));
    let r = h.check_undo(&"A".to_string(), false, false);
    assert_eq!(r.unwrap_err(), UndoError::SourceMissing);
    assert!(h.find(&"A".to_string()).unwrap().can_undo);
    assert_eq!(h.len(), 1);
}

#[test]
fn undo_refused_when_destination_occupied() {
    let mut h = History::new(5);
    h.add(record("A", 1));
    assert_eq!(h.check_undo(&"A".to_string(), true, true).unwrap_err(), UndoError::DestinationOccupied);
    assert!(h.find(&"A".to_string()).unwrap().can_undo);
}

#[test]
fn undo_is_single_use() {
    let mut h = History::new(5);
    h.add(record("A", 1));
    let rec = h.check_undo(&"A".to_string(), true, false).unwrap();
    assert_eq!(rec.original_path, "/downloads/A.txt");
    assert_eq!(rec.new_path, "/sorted/Documents/A.txt");
    h.mark_undone(&"A".to_string());
    assert_eq!(h.check_undo(&"A".to_string(), true, false).unwrap_err(), UndoError::AlreadyUndone);
    assert!(!h.find(&"A".to_string()).unwrap().can_undo);
}

#[test]
fn undo_unknown_id() {
    let h = History::new(5);
    assert_eq!(h.check_undo(&"nope".to_string(), true, false).unwrap_err(), UndoError::NotFound);
}

#[test]
fn clear_empties_the_log() {
    let mut h = History::new(5);
    h.add(record("A", 1));
    h.clear();
    assert_eq!(h.len(), 0);
    assert_eq!(h.limit(), 5);
}

#[test]
fn stats_count_day_and_week() {
    let day = 86400;
    let now = 100 * day + 3600;
    let mut h = History::new(10);
    h.add(record("old", now - 8 * day));
    h.add(record("week", now - 3 * day));
    h.add(record("yesterday", 100 * day - 1));
    h.add(record("today", 100 * day));
    let s = h.stats(now);
    assert_eq!(s.total, 4);
    assert_eq!(s.today, 1);
    assert_eq!(s.this_week, 3);
}

#[test]
fn stats_before_the_epoch_use_floor_days() {
    let day = 86400;
    let now = -day - 100;
    let mut h = History::new(10);
    h.add(record("day_start", -2 * day));
    h.add(record("day_before", -2 * day - 1));
    let s = h.stats(now);
    assert_eq!(s.today, 1);
    assert_eq!(s.this_week, 2);
}
