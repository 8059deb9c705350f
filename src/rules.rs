//! Rule matching: which enabled rule, if any, claims a file.
use vstd::prelude::*;
use crate::schema::{Condition, SortRule};
use crate::text::{
    contains_str, ends_with_str, has_suffix, is_substring, lower_of, lowercase, regex_accepts,
    regex_matches, starts_with_char,
};

verus! {

/// Whether condition `c` holds of a file named `name`, whose lowercased extension
/// is `ext`, of `size` bytes.
pub open spec fn condition_holds(c: Condition, name: Seq<char>, ext: Seq<char>, size: u64) -> bool {
    match c {
        Condition::Extension(exts) => exists|k: int|
            0 <= k < exts@.len() && #[trigger] lower_of(exts@[k]@) == ext,
        Condition::NameContains(p) => is_substring(lower_of(p@), lower_of(name)),
        Condition::NameRegex(p) => regex_accepts(p@, name),
        Condition::SizeGreaterThan(n) => size > n,
        Condition::SizeLessThan(n) => size < n,
    }
}

/// A rule applies when it has at least one condition and all of them hold.
pub open spec fn rule_holds(r: SortRule, name: Seq<char>, ext: Seq<char>, size: u64) -> bool {
    &&& r.conditions@.len() > 0
    &&& forall|k: int| 0 <= k < r.conditions@.len()
        ==> #[trigger] condition_holds(r.conditions@[k], name, ext, size)
}

/// Rule `i` is enabled and applies to the file.
pub open spec fn eligible(rules: Seq<SortRule>, i: int, name: Seq<char>, ext: Seq<char>, size: u64) -> bool {
    0 <= i < rules.len() && rules[i].enabled && rule_holds(rules[i], name, ext, size)
}

/// Rule `i` beats every eligible rule among the first `n`: a strictly higher
/// priority, or an equal one and an earlier position.
pub open spec fn beats_upto(rules: Seq<SortRule>, i: int, n: int, name: Seq<char>, ext: Seq<char>, size: u64) -> bool {
    forall|j: int| 0 <= j < n && #[trigger] eligible(rules, j, name, ext, size)
        ==> rules[j].priority < rules[i].priority
            || (rules[j].priority == rules[i].priority && i <= j)
}

/// Rule `i` is the one chosen: eligible, and first once the eligible rules are
/// ordered by descending priority, ties kept in list order.
pub open spec fn is_winner(rules: Seq<SortRule>, i: int, name: Seq<char>, ext: Seq<char>, size: u64) -> bool {
    eligible(rules, i, name, ext, size) && beats_upto(rules, i, rules.len() as int, name, ext, size)
}

/// No rule in the list is enabled and applies.
pub open spec fn none_eligible(rules: Seq<SortRule>, name: Seq<char>, ext: Seq<char>, size: u64) -> bool {
    forall|j: int| !#[trigger] eligible(rules, j, name, ext, size)
}

/// Some entry of `extensions`, lowercased, equals `extension`.
fn extension_listed(extensions: &Vec<String>, extension: &str) -> (r: bool)
    ensures
        r == exists|k: int| 0 <= k < extensions@.len() && #[trigger] lower_of(extensions@[k]@) == extension@,
{
    let target: String = extension.to_owned();
    let mut i: usize = 0;
    while i < extensions.len()
        invariant
            i <= extensions@.len(),
            target@ == extension@,
            forall|k: int| 0 <= k < i ==> lower_of(#[trigger] extensions@[k]@) != extension@,
        decreases extensions@.len() - i,
    {
        let e = lowercase(extensions[i].as_str());
        if e == target {
            assert(lower_of(extensions@[i as int]@) == extension@);
            return true;
        }
        i += 1;
    }
    false
}

/// Condition test; `extension` is already lowercased.
pub fn matches_condition(file_name: &str, extension: &str, file_size: u64, condition: &Condition) -> (r: bool)
    ensures
        r == condition_holds(*condition, file_name@, extension@, file_size),
{
    match condition {
        Condition::Extension(extensions) => extension_listed(extensions, extension),
        Condition::NameContains(pattern) => {
            let name = lowercase(file_name);
            let p = lowercase(pattern.as_str());
            contains_str(name.as_str(), p.as_str())
        }
        Condition::NameRegex(pattern) => regex_matches(pattern.as_str(), file_name),
        Condition::SizeGreaterThan(size) => file_size > *size,
        Condition::SizeLessThan(size) => file_size < *size,
    }
}

/// All conditions of `rule` hold, and there is at least one.
pub fn matches_rule(file_name: &str, extension: &str, file_size: u64, rule: &SortRule) -> (r: bool)
    ensures
        r == rule_holds(*rule, file_name@, extension@, file_size),
{
    let mut i: usize = 0;
    while i < rule.conditions.len()
        invariant
            i <= rule.conditions@.len(),
            forall|k: int| 0 <= k < i
                ==> #[trigger] condition_holds(rule.conditions@[k], file_name@, extension@, file_size),
        decreases rule.conditions@.len() - i,
    {
        if !matches_condition(file_name, extension, file_size, &rule.conditions[i]) {
            return false;
        }
        i += 1;
    }
    rule.conditions.len() > 0
}

/// Position of the chosen rule for a file whose extension is already lowercased.
pub fn select_rule(file_name: &str, extension: &str, file_size: u64, rules: &[SortRule]) -> (r: Option<usize>)
    ensures
        r matches Some(i) ==> is_winner(rules@, i as int, file_name@, extension@, file_size),
        r is None <==> none_eligible(rules@, file_name@, extension@, file_size),
{
    let mut best: Option<usize> = None;
    let mut i: usize = 0;
    while i < rules.len()
        invariant
            i <= rules@.len(),
            best matches Some(b) ==> b < i && eligible(rules@, b as int, file_name@, extension@, file_size)
                && beats_upto(rules@, b as int, i as int, file_name@, extension@, file_size),
            best is None ==> forall|j: int| 0 <= j < i ==> !#[trigger] eligible(rules@, j, file_name@, extension@, file_size),
        decreases rules@.len() - i,
    {
        let rule = &rules[i];
        if rule.enabled && matches_rule(file_name, extension, file_size, rule) {
            match best {
                None => {
                    best = Some(i);
                },
                Some(b) => {
                    if rule.priority > rules[b].priority {
                        best = Some(i);
                    }
                },
            }
        }
        i += 1;
    }
    best
}

/// Rule matching from a file's name, extension (if it has one) and size: among the
/// enabled rules that apply, the one of highest priority, the earliest on a tie.
/// A file without an extension matches nothing.
pub fn match_file<'a>(file_name: &str, extension: Option<&str>, file_size: u64, rules: &'a [SortRule]) -> (r: Option<&'a SortRule>)
    ensures
        extension is None ==> r is None,
        extension matches Some(e) ==> {
            &&& (r is None <==> none_eligible(rules@, file_name@, lower_of(e@), file_size))
            &&& (r matches Some(m) ==> exists|i: int|
                is_winner(rules@, i, file_name@, lower_of(e@), file_size) && *m == rules@[i])
        },
{
    match extension {
        None => None,
        Some(e) => {
            let lowered = lowercase(e);
            match select_rule(file_name, lowered.as_str(), file_size, rules) {
                Some(i) => Some(&rules[i]),
                None => None,
            }
        },
    }
}

/// A rule without conditions never applies, whatever the file.
pub proof fn lemma_empty_rule_never_matches(r: SortRule, name: Seq<char>, ext: Seq<char>, size: u64)
    requires
        r.conditions@.len() == 0,
    ensures
        !rule_holds(r, name, ext, size),
{
}

/// The chosen rule has the highest priority among all enabled rules that apply,
/// and it is unique.
pub proof fn lemma_winner_has_highest_priority(
    rules: Seq<SortRule>,
    i: int,
    j: int,
    name: Seq<char>,
    ext: Seq<char>,
    size: u64,
)
    requires
        is_winner(rules, i, name, ext, size),
        eligible(rules, j, name, ext, size),
    ensures
        rules[j].priority <= rules[i].priority,
        is_winner(rules, j, name, ext, size) ==> i == j,
{
}

/// Destination folder of the rule that a file would match, touching no disk.
pub fn test_rule(file_name: &str, extension: Option<&str>, file_size: u64, rules: &[SortRule]) -> (r: Option<String>)
    ensures
        extension is None ==> r is None,
        extension matches Some(e) ==> {
            &&& (r is None <==> none_eligible(rules@, file_name@, lower_of(e@), file_size))
            &&& (r matches Some(d) ==> exists|i: int|
                is_winner(rules@, i, file_name@, lower_of(e@), file_size) && d@ == rules@[i].destination_folder@)
        },
{
    match match_file(file_name, extension, file_size, rules) {
        Some(rule) => Some(rule.destination_folder.clone()),
        None => None,
    }
}

/// Files that are never staged: hidden ones and unfinished downloads.
pub open spec fn valid_file_name(name: Seq<char>) -> bool {
    &&& !(name.len() > 0 && name[0] == '.')
    &&& !has_suffix(name, ".crdownload"@)
    &&& !has_suffix(name, ".part"@)
    &&& !has_suffix(name, ".tmp"@)
    &&& !has_suffix(name, ".download"@)
}

/// Whether a file of this name may be staged at all.
pub fn is_valid_file(file_name: &str) -> (r: bool)
    ensures
        r == valid_file_name(file_name@),
{
    !starts_with_char(file_name, '.') && !ends_with_str(file_name, ".crdownload")
        && !ends_with_str(file_name, ".part") && !ends_with_str(file_name, ".tmp")
        && !ends_with_str(file_name, ".download")
}

} // verus!
