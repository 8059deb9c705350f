use autosort::editing::{add_rule, delete_rule, reorder_rules, update_rule, RuleError};
use autosort::schema::{default_rules, Config, ConflictResolution, SortRule};

fn ids(rules: &[SortRule]) -> Vec<String> {
    rules.iter().map(|r| r.id.clone()).collect()
}

#[test]
fn add_appends() {
    let mut rules = default_rules();
    let extra = SortRule::new("Books", vec!["mobi"], "Books", 5);
    let id = extra.id.clone();
    add_rule(&mut rules, extra);
    assert_eq!(rules.len(), 8);
    assert_eq!(rules[7].id, id);
    assert_eq!(rules[7].destination_folder, "Books");
}

#[test]
fn update_replaces_by_id() {
    let mut rules = default_rules();
    let mut changed = rules[2].clone();
    changed.enabled = false;
    changed.name = "Setups".to_string();
    assert_eq!(update_rule(&mut rules, changed), Ok(()));
    assert!(!rules[2].enabled);
    assert_eq!(rules[2].name, "Setups");
    let stranger = SortRule::new("X", vec!["x"], "X", 1);
    assert_eq!(update_rule(&mut rules, stranger), Err(RuleError::NotFound));
    assert_eq!(rules.len(), 7);
}

#[test]
fn delete_removes_by_id() {
    let mut rules = default_rules();
    let gone = rules[0].id.clone();
    assert_eq!(delete_rule(&mut rules, &gone), Ok(()));
    assert_eq!(rules.len(), 6);
    assert_eq!(rules[0].name, "Documents");
    assert_eq!(delete_rule(&mut rules, &gone), Err(RuleError::NotFound));
    assert_eq!(rules.len(), 6);
}

#[test]
fn reorder_derives_priorities() {
    let mut rules = default_rules();
    let all = ids(&rules);
    let order = vec![all[6].clone(), "unknown".to_string(), all[0].clone()];
    reorder_rules(&mut rules, &order);
    assert_eq!(rules[6].priority, 30);
    assert_eq!(rules[0].priority, 10);
    assert_eq!(rules[1].priority, 90);
}

#[test]
fn default_config_values() {
    let c = Config::default();
    assert_eq!(c.grace_period_seconds, 5);
    assert_eq!(c.history_limit, 500);
    assert_eq!(c.conflict_resolution, ConflictResolution::Rename);
    assert_eq!(c.watch_folder, c.destination_root);
    assert_eq!(c.rules.len(), 7);
    assert_eq!(c.total_files_moved, 0);
}
