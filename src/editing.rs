//! Edits to a rule list: add, replace by id, delete by id, reorder.
use vstd::prelude::*;
use crate::schema::SortRule;

verus! {

/// Why a rule edit was refused.
#[derive(Clone, Copy, Debug, PartialEq, Eq, Structural)]
pub enum RuleError {
    /// No rule has the given id.
    NotFound,
}

/// `i` is the first position of `rules` holding a rule with this id.
pub open spec fn first_rule_with_id(rules: Seq<SortRule>, id: Seq<char>, i: int) -> bool {
    0 <= i < rules.len() && rules[i].id@ == id && forall|j: int| 0 <= j < i ==> #[trigger] rules[j].id@ != id
}

pub open spec fn has_rule(rules: Seq<SortRule>, id: Seq<char>) -> bool {
    exists|i: int| 0 <= i < rules.len() && #[trigger] rules[i].id@ == id
}

/// `rules` with the first rule of this id given priority `p`; unchanged if there is none.
pub open spec fn with_priority(rules: Seq<SortRule>, id: Seq<char>, p: i32) -> Seq<SortRule> {
    if has_rule(rules, id) {
        let i = choose|i: int| first_rule_with_id(rules, id, i);
        rules.update(i, SortRule { priority: p, ..rules[i] })
    } else {
        rules
    }
}

/// Priority that a reorder gives to the id at position `k` of a list of `n` ids.
pub open spec fn reorder_priority(n: nat, k: nat) -> int {
    (n - k) * 10
}

/// `rules` after the first `k` ids of `ids` have received their priorities, in order.
pub open spec fn reordered(rules: Seq<SortRule>, ids: Seq<String>, k: nat) -> Seq<SortRule>
    decreases k,
{
    if k == 0 || k > ids.len() {
        rules
    } else {
        with_priority(
            reordered(rules, ids, (k - 1) as nat),
            ids[k - 1]@,
            reorder_priority(ids.len(), (k - 1) as nat) as i32,
        )
    }
}

/// The rules whose id differs from `id`, in order.
pub open spec fn without_id(rules: Seq<SortRule>, id: Seq<char>) -> Seq<SortRule> {
    rules.filter(|r: SortRule| r.id@ != id)
}

proof fn lemma_first_rule_unique(rules: Seq<SortRule>, id: Seq<char>, i: int, j: int)
    requires
        first_rule_with_id(rules, id, i),
        first_rule_with_id(rules, id, j),
    ensures
        i == j,
{
    if i < j {
        assert(rules[i].id@ != id);
    } else if j < i {
        assert(rules[j].id@ != id);
    }
}

fn position_of_rule(rules: &Vec<SortRule>, id: &String) -> (r: Option<usize>)
    ensures
        r matches Some(i) ==> first_rule_with_id(rules@, id@, i as int),
        r is None <==> !has_rule(rules@, id@),
{
    let mut i: usize = 0;
    while i < rules.len()
        invariant
            i <= rules@.len(),
            forall|k: int| 0 <= k < i ==> #[trigger] rules@[k].id@ != id@,
        decreases rules@.len() - i,
    {
        if rules[i].id == *id {
            return Some(i);
        }
        i += 1;
    }
    None
}

/// Appends a rule.
pub fn add_rule(rules: &mut Vec<SortRule>, rule: SortRule)
    ensures
        final(rules)@ == old(rules)@.push(rule),
{
    rules.push(rule);
}

/// Replaces the first rule with the same id as `rule`.
pub fn update_rule(rules: &mut Vec<SortRule>, rule: SortRule) -> (r: Result<(), RuleError>)
    ensures
        !has_rule(old(rules)@, rule.id@) ==> r == Err::<(), RuleError>(RuleError::NotFound)
            && final(rules)@ == old(rules)@,
        has_rule(old(rules)@, rule.id@) ==> r is Ok && exists|i: int|
            first_rule_with_id(old(rules)@, rule.id@, i) && final(rules)@ == old(rules)@.update(i, rule),
{
    match position_of_rule(rules, &rule.id) {
        None => Err(RuleError::NotFound),
        Some(i) => {
            let ghost g = rule;
            let _old_rule = rules.remove(i);
            rules.insert(i, rule);
            assert(rules@ =~= old(rules)@.update(i as int, g));
            Ok(())
        },
    }
}

/// Sets priorities from the order of `ids`: the first gets ten times the number
/// of ids, each next one ten less. Unknown ids are passed over.
pub fn reorder_rules(rules: &mut Vec<SortRule>, ids: &Vec<String>)
    requires
        ids@.len() * 10 <= i32::MAX,
    ensures
        final(rules)@ == reordered(old(rules)@, ids@, ids@.len()),
{
    let n = ids.len();
    let mut k: usize = 0;
    while k < n
        invariant
            n == ids@.len(),
            n * 10 <= i32::MAX,
            k <= n,
            rules@ == reordered(old(rules)@, ids@, k as nat),
        decreases n - k,
    {
        let p: i32 = ((n - k) * 10) as i32;
        match position_of_rule(rules, &ids[k]) {
            None => {},
            Some(i) => {
                let ghost before = rules@;
                let mut rule = rules.remove(i);
                rule.priority = p;
                rules.insert(i, rule);
                proof {
                    let c = choose|c: int| first_rule_with_id(before, ids@[k as int]@, c);
                    lemma_first_rule_unique(before, ids@[k as int]@, i as int, c);
                    assert(rules@ =~= before.update(i as int, SortRule { priority: p, ..before[i as int] }));
                }
            },
        }
        k += 1;
    }
}

/// Removes every rule with this id; refused if there is none.
pub fn delete_rule(rules: &mut Vec<SortRule>, id: &String) -> (r: Result<(), RuleError>)
    ensures
        final(rules)@ == without_id(old(rules)@, id@),
        r is Ok <==> has_rule(old(rules)@, id@),
        r is Err ==> r == Err::<(), RuleError>(RuleError::NotFound),
{
    let ghost orig = rules@;
    let mut rest: Vec<SortRule> = Vec::new();
    std::mem::swap(rules, &mut rest);
    let mut found = false;
    let ghost mut k: int = 0;
    proof {
        reveal(Seq::filter);
        assert(orig.subrange(0, 0) =~= Seq::<SortRule>::empty());
        assert(rest@ =~= orig.subrange(0, orig.len() as int));
    }
    while rest.len() > 0
        invariant
            0 <= k <= orig.len(),
            rest@ == orig.subrange(k, orig.len() as int),
            rules@ == without_id(orig.subrange(0, k), id@),
            found <==> exists|j: int| 0 <= j < k && #[trigger] orig[j].id@ == id@,
        decreases rest@.len(),
    {
        let r = rest.remove(0);
        proof {
            reveal(Seq::filter);
            assert(orig.subrange(0, k + 1).drop_last() =~= orig.subrange(0, k));
            assert(orig.subrange(0, k + 1).last() == orig[k]);
        }
        if r.id == *id {
            found = true;
        } else {
            rules.push(r);
        }
        proof {
            k = k + 1;
        }
        assert(rest@ =~= orig.subrange(k, orig.len() as int));
    }
    assert(orig.subrange(0, k) =~= orig);
    if found {
        Ok(())
    } else {
        Err(RuleError::NotFound)
    }
}

} // verus!
