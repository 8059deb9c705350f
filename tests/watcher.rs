use autosort::history::History;
use autosort::pending::PendingStore;
use autosort::schema::{default_rules, Config, ConflictResolution};
use autosort::watcher::{FileWatcher, WatchError};

fn config(grace: u64) -> Config {
    Config {
        watch_folder: "/downloads".to_string(),
        destination_root: "/sorted".to_string(),
        grace_period_seconds: grace,
        rules: default_rules(),
        run_on_startup: false,
        minimize_to_tray: true,
        show_notifications: true,
        dark_mode: false,
        conflict_resolution: ConflictResolution::Rename,
        history_limit: 500,
        total_files_moved: 0,
    }
}

fn event(w: &mut FileWatcher, id: &str, name: &str, ext: &str, now: i64) -> bool {
    w.on_file_event(id.to_string(), format!("/downloads/{}", name), name, Some(ext), 1, now).is_some()
}

#[test]
fn staging_same_path_twice_keeps_one_entry() {
    let mut w = FileWatcher::new(config(5));
    assert!(event(&mut w, "1", "a.pdf", "pdf", 0));
    assert!(!event(&mut w, "2", "a.pdf", "pdf", 1));
    assert_eq!(w.get_pending_files().len(), 1);
}

#[test]
fn grace_period_deadline() {
    let mut w = FileWatcher::new(config(5));
    let mut h = History::new(10);
    assert!(event(&mut w, "1", "a.pdf", "pdf", 0));
    let p = &w.get_pending_files()[0];
    assert_eq!(p.added_at, 0);
    assert_eq!(p.move_at, 5);
    assert_eq!(p.destination, "Documents");
    assert!(w.sweep(4).is_empty());
    assert_eq!(w.get_pending_files().len(), 1);
    let due = w.sweep(5);
    assert_eq!(due.len(), 1);
    assert!(w.get_pending_files().is_empty());
    w.complete_move(&mut h, &due[0], "/sorted/Documents/a.pdf".to_string(), "r1".to_string(), 5);
    let all = h.get_all();
    assert_eq!(all.len(), 1);
    assert!(all[0].can_undo);
    assert_eq!(all[0].original_path, "/downloads/a.pdf");
    assert_eq!(all[0].new_path, "/sorted/Documents/a.pdf");
    assert_eq!(w.config().total_files_moved, 1);
}

#[test]
fn paused_events_are_discarded_until_rescan() {
    let mut w = FileWatcher::new(config(5));
    w.start(true).unwrap();
    w.pause();
    assert!(!event(&mut w, "1", "a.pdf", "pdf", 0));
    w.resume();
    assert!(w.get_pending_files().is_empty());
    let staged = w.stage_file("2".to_string(), "/downloads/a.pdf".to_string(), "a.pdf", Some("pdf"), 1, 3);
    assert!(staged.is_some());
    assert_eq!(w.get_pending_files().len(), 1);
}

#[test]
fn paused_sweep_moves_nothing() {
    let mut w = FileWatcher::new(config(0));
    assert!(event(&mut w, "1", "a.pdf", "pdf", 0));
    w.pause();
    assert!(w.sweep(100).is_empty());
    assert_eq!(w.get_pending_files().len(), 1);
}

#[test]
fn invalid_or_unmatched_files_are_not_staged() {
    let mut w = FileWatcher::new(config(5));
    assert!(!event(&mut w, "1", ".hidden.pdf", "pdf", 0));
    assert!(!event(&mut w, "2", "a.pdf.part", "part", 0));
    assert!(!event(&mut w, "3", "a.xyz", "xyz", 0));
    assert!(w.get_pending_files().is_empty());
}

#[test]
fn lifecycle_flags() {
    let mut w = FileWatcher::new(config(5));
    assert_eq!(w.start(false), Err(WatchError::FolderMissing));
    assert!(!w.is_running());
    assert_eq!(w.start(true), Ok(()));
    assert!(w.is_running());
    w.pause();
    let s = w.status();
    assert!(s.is_running && s.is_paused);
    w.stop();
    assert!(!w.is_running());
}

#[test]
fn cancel_and_move_now() {
    let mut w = FileWatcher::new(config(5));
    assert!(event(&mut w, "1", "a.pdf", "pdf", 0));
    assert!(event(&mut w, "2", "b.pdf", "pdf", 0));
    assert!(w.cancel_pending(&"1".to_string()));
    assert!(!w.cancel_pending(&"1".to_string()));
    let taken = w.move_now(&"2".to_string()).unwrap();
    assert_eq!(taken.path, "/downloads/b.pdf");
    assert_eq!(w.move_now(&"2".to_string()).unwrap_err(), WatchError::PendingNotFound);
    assert!(w.get_pending_files().is_empty());
}

#[test]
fn store_take_due_keeps_order() {
    let mut s = PendingStore::new();
    let rules = default_rules();
    s.stage("1".to_string(), "/d/a".to_string(), "a".to_string(), &rules[0], 5, 0, 1);
    s.stage("2".to_string(), "/d/b".to_string(), "b".to_string(), &rules[0], 1, 0, 1);
    s.stage("3".to_string(), "/d/c".to_string(), "c".to_string(), &rules[0], 2, 0, 1);
    assert!(s.stage("4".to_string(), "/d/a".to_string(), "a".to_string(), &rules[0], 1, 0, 1).is_none());
    assert!(s.stage("1".to_string(), "/d/z".to_string(), "z".to_string(), &rules[0], 1, 0, 1).is_none());
    let due: Vec<String> = s.take_due(2).into_iter().map(|f| f.id).collect();
    assert_eq!(due, vec!["2", "3"]);
    assert_eq!(s.len(), 1);
    assert!(s.contains_path(&"/d/a".to_string()));
}

#[test]
fn add_pending_file_uses_clock_and_fresh_id() {
    let mut w = FileWatcher::new(config(5));
    let p = w.add_pending_file("/downloads/a.pdf".to_string(), "a.pdf", Some("pdf"), 3).unwrap();
    assert_eq!(p.move_at - p.added_at, 5);
    assert!(p.added_at > 1_600_000_000);
    assert_eq!(p.id.len(), 36);
    assert!(w.add_pending_file("/downloads/a.pdf".to_string(), "a.pdf", Some("pdf"), 3).is_none());
    assert_eq!(w.get_pending_files().len(), 1);
}

#[test]
fn process_due_and_record_move_at_current_time() {
    let mut w = FileWatcher::new(config(0));
    let mut h = History::new(3);
    w.add_pending_file("/downloads/a.pdf".to_string(), "a.pdf", Some("pdf"), 3).unwrap();
    let due = w.process_due();
    assert_eq!(due.len(), 1);
    w.record_move(&mut h, &due[0], "/sorted/Documents/a.pdf".to_string());
    let all = h.get_all();
    assert_eq!(all.len(), 1);
    assert!(all[0].can_undo);
    assert!(all[0].timestamp >= due[0].added_at);
    assert_eq!(all[0].id.len(), 36);
    assert_eq!(all[0].file_size, 3);
}

#[test]
fn cancel_keeps_other_entries() {
    let mut w = FileWatcher::new(config(5));
    assert!(event(&mut w, "1", "a.pdf", "pdf", 0));
    assert!(event(&mut w, "2", "b.pdf", "pdf", 0));
    assert!(event(&mut w, "3", "c.pdf", "pdf", 0));
    assert!(w.cancel_pending(&"2".to_string()));
    let left: Vec<String> = w.get_pending_files().into_iter().map(|p| p.id).collect();
    assert_eq!(left, vec!["1", "3"]);
}

#[test]
fn record_move_counts_every_move() {
    let mut w = FileWatcher::new(config(0));
    let mut h = History::new(5);
    let p = w.add_pending_file("/downloads/a.pdf".to_string(), "a.pdf", Some("pdf"), 3).unwrap();
    w.record_move(&mut h, &p, "/sorted/Documents/a.pdf".to_string());
    w.record_move(&mut h, &p, "/sorted/Documents/a (1).pdf".to_string());
    assert_eq!(w.config().total_files_moved, 2);
    assert_eq!(h.get_all()[0].new_path, "/sorted/Documents/a (1).pdf");
}

#[test]
fn event_now_is_dropped_while_paused_and_staged_after_resume() {
    let mut w = FileWatcher::new(config(5));
    w.pause();
    assert!(w.on_file_event_now("/downloads/a.pdf".to_string(), "a.pdf", Some("pdf"), 1).is_none());
    assert!(w.get_pending_files().is_empty());
    w.resume();
    let p = w.on_file_event_now("/downloads/a.pdf".to_string(), "a.pdf", Some("pdf"), 1).unwrap();
    assert_eq!(p.rule_name, "Documents");
    assert_eq!(p.move_at - p.added_at, 5);
    assert!(w.add_pending_file("/downloads/x.part".to_string(), "x.part", Some("part"), 1).is_none());
}
