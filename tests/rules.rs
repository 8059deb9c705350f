use autosort::rules::{is_valid_file, match_file, matches_condition, matches_rule, select_rule, test_rule};
use autosort::schema::{default_rules, Condition, SortRule};

fn rule(name: &str, priority: i32, enabled: bool, conditions: Vec<Condition>) -> SortRule {
    SortRule {
        id: format!("id-{}", name),
        name: name.to_string(),
        enabled,
        priority,
        conditions,
        destination_folder: name.to_string(),
        is_default: false,
    }
}

#[test]
fn test_match_image() {
    let rules = default_rules();
    let matched = match_file("photo.jpg", Some("jpg"), 0, &rules);
    assert!(matched.is_some());
    assert_eq!(matched.unwrap().name, "Images");
}

#[test]
fn test_match_document() {
    let rules = default_rules();
    let matched = match_file("report.pdf", Some("pdf"), 0, &rules);
    assert!(matched.is_some());
    assert_eq!(matched.unwrap().name, "Documents");
}

#[test]
fn uppercase_extension_matches_images() {
    let rules = default_rules();
    let matched = match_file("photo.JPG", Some("JPG"), 0, &rules);
    assert_eq!(matched.unwrap().name, "Images");
}

#[test]
fn file_without_extension_matches_nothing() {
    let rules = default_rules();
    assert!(match_file("Makefile", None, 0, &rules).is_none());
}

#[test]
fn unknown_extension_matches_nothing() {
    let rules = default_rules();
    assert!(match_file("notes.xyz", Some("xyz"), 0, &rules).is_none());
}

#[test]
fn default_rules_shape() {
    let rules = default_rules();
    assert_eq!(rules.len(), 7);
    let names: Vec<&str> = rules.iter().map(|r| r.name.as_str()).collect();
    assert_eq!(names, vec!["Images", "Documents", "Installers", "Archives", "Audio", "Video", "Code"]);
    let priorities: Vec<i32> = rules.iter().map(|r| r.priority).collect();
    assert_eq!(priorities, vec![100, 90, 80, 70, 60, 50, 40]);
    assert!(rules.iter().all(|r| r.enabled && r.is_default && r.conditions.len() == 1));
    assert_ne!(rules[0].id, rules[1].id);
}

#[test]
fn higher_priority_wins() {
    let rules = vec![
        rule("Low", 1, true, vec![Condition::Extension(vec!["txt".to_string()])]),
        rule("High", 5, true, vec![Condition::Extension(vec!["TXT".to_string()])]),
    ];
    assert_eq!(match_file("a.txt", Some("txt"), 0, &rules).unwrap().name, "High");
    assert_eq!(select_rule("a.txt", "txt", 0, &rules), Some(1));
}

#[test]
fn equal_priority_keeps_list_order() {
    let rules = vec![
        rule("First", 5, true, vec![Condition::SizeGreaterThan(10)]),
        rule("Second", 5, true, vec![Condition::SizeGreaterThan(10)]),
    ];
    assert_eq!(match_file("a.bin", Some("bin"), 11, &rules).unwrap().name, "First");
}

#[test]
fn disabled_rule_is_ignored() {
    let rules = vec![
        rule("Off", 9, false, vec![Condition::SizeLessThan(100)]),
        rule("On", 1, true, vec![Condition::SizeLessThan(100)]),
    ];
    assert_eq!(match_file("a.bin", Some("bin"), 5, &rules).unwrap().name, "On");
}

#[test]
fn empty_condition_list_never_matches() {
    let rules = vec![rule("Empty", 9, true, vec![])];
    assert!(match_file("a.txt", Some("txt"), 5, &rules).is_none());
    assert!(!matches_rule("a.txt", "txt", 5, &rules[0]));
}

#[test]
fn all_conditions_must_hold() {
    let r = rule(
        "Big pdf",
        1,
        true,
        vec![Condition::Extension(vec!["pdf".to_string()]), Condition::SizeGreaterThan(1000)],
    );
    assert!(matches_rule("a.pdf", "pdf", 1001, &r));
    assert!(!matches_rule("a.pdf", "pdf", 1000, &r));
    assert!(!matches_rule("a.doc", "doc", 5000, &r));
}

#[test]
fn name_contains_ignores_case() {
    let c = Condition::NameContains("InVoice".to_string());
    assert!(matches_condition("My_INVOICE_2024.pdf", "pdf", 0, &c));
    assert!(!matches_condition("receipt.pdf", "pdf", 0, &c));
}

#[test]
fn name_regex_matches_and_bad_pattern_never_matches() {
    let good = Condition::NameRegex("^IMG_[0-9]+".to_string());
    assert!(matches_condition("IMG_1234.png", "png", 0, &good));
    assert!(!matches_condition("photo.png", "png", 0, &good));
    let bad = Condition::NameRegex("([unclosed".to_string());
    assert!(!matches_condition("([unclosed", "png", 0, &bad));
}

#[test]
fn size_bounds_are_strict() {
    assert!(!matches_condition("a", "b", 10, &Condition::SizeGreaterThan(10)));
    assert!(matches_condition("a", "b", 11, &Condition::SizeGreaterThan(10)));
    assert!(!matches_condition("a", "b", 10, &Condition::SizeLessThan(10)));
    assert!(matches_condition("a", "b", 9, &Condition::SizeLessThan(10)));
}

#[test]
fn test_rule_reports_destination() {
    let rules = default_rules();
    assert_eq!(test_rule("song.MP3", Some("MP3"), 0, &rules), Some("Audio".to_string()));
    assert_eq!(test_rule("thing.unknown", Some("unknown"), 0, &rules), None);
}

#[test]
fn hidden_and_partial_files_are_invalid() {
    assert!(is_valid_file("report.pdf"));
    assert!(!is_valid_file(".hidden"));
    assert!(!is_valid_file("movie.mkv.crdownload"));
    assert!(!is_valid_file("file.part"));
    assert!(!is_valid_file("file.tmp"));
    assert!(!is_valid_file("file.download"));
}

#[test]
fn name_contains_edges() {
    let empty = Condition::NameContains(String::new());
    assert!(matches_condition("a", "b", 0, &empty));
    let whole = Condition::NameContains("ABC".to_string());
    assert!(matches_condition("abc", "x", 0, &whole));
    assert!(matches_condition("xxabc", "x", 0, &whole));
    assert!(!matches_condition("ab", "x", 0, &whole));
    assert!(!is_valid_file(".part"));
    assert!(is_valid_file("part"));
    assert!(is_valid_file(""));
}
