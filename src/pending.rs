//! The table of files waiting out their grace period before being moved.
use vstd::prelude::*;
use crate::schema::SortRule;

verus! {

/// A file staged for a move at `move_at` (seconds since the epoch).
#[derive(Debug)]
pub struct PendingFile {
    pub id: String,
    pub path: String,
    pub file_name: String,
    pub destination: String,
    pub rule_name: String,
    pub added_at: i64,
    pub move_at: i64,
    pub file_size: u64,
}

impl Clone for PendingFile {
    fn clone(&self) -> (r: Self)
        ensures
            r == *self,
    {
        PendingFile {
            id: self.id.clone(),
            path: self.path.clone(),
            file_name: self.file_name.clone(),
            destination: self.destination.clone(),
            rule_name: self.rule_name.clone(),
            added_at: self.added_at,
            move_at: self.move_at,
            file_size: self.file_size,
        }
    }
}

/// Staged files, in staging order. No two share an id, and no two share a path.
pub struct PendingStore {
    files: Vec<PendingFile>,
}

/// The entry's deadline has been reached at time `now`.
pub open spec fn is_due(f: PendingFile, now: i64) -> bool {
    f.move_at <= now
}

/// Some entry of `s` refers to `path`.
pub open spec fn has_path(s: Seq<PendingFile>, path: Seq<char>) -> bool {
    exists|i: int| 0 <= i < s.len() && #[trigger] s[i].path@ == path
}

/// Some entry of `s` has this id.
pub open spec fn has_id(s: Seq<PendingFile>, id: Seq<char>) -> bool {
    exists|i: int| 0 <= i < s.len() && #[trigger] s[i].id@ == id
}

/// Exactly one entry of `s` refers to `path`.
pub open spec fn single_entry_for(s: Seq<PendingFile>, path: Seq<char>) -> bool {
    exists|i: int| 0 <= i < s.len() && #[trigger] s[i].path@ == path
        && forall|j: int| 0 <= j < s.len() && #[trigger] s[j].path@ == path ==> j == i
}

/// Ids and paths of the entries of `s` are pairwise distinct.
pub open spec fn unique_entries(s: Seq<PendingFile>) -> bool {
    forall|i: int, j: int| #![trigger s[i], s[j]] 0 <= i < s.len() && 0 <= j < s.len() && i != j
        ==> s[i].id@ != s[j].id@ && s[i].path@ != s[j].path@
}

/// What staging does: a path already staged, or an id already in use, leaves the
/// table as it was and stages nothing; otherwise the new entry goes to the end.
pub open spec fn stage_post(
    before: Seq<PendingFile>,
    after: Seq<PendingFile>,
    r: Option<PendingFile>,
    id: Seq<char>,
    path: Seq<char>,
    file_name: Seq<char>,
    rule: SortRule,
    now: i64,
    grace_period: u64,
    file_size: u64,
) -> bool {
    if has_path(before, path) || has_id(before, id) {
        r is None && after == before
    } else {
        r matches Some(f) && staged_entry(f, id, path, file_name, rule, now, grace_period, file_size)
            && after == before.push(f)
    }
}

/// The entries of `s` that are due at `now`, in order.
pub open spec fn due_entries(s: Seq<PendingFile>, now: i64) -> Seq<PendingFile> {
    s.filter(|f: PendingFile| is_due(f, now))
}

/// The entries of `s` that are not yet due at `now`, in order.
pub open spec fn waiting_entries(s: Seq<PendingFile>, now: i64) -> Seq<PendingFile> {
    s.filter(|f: PendingFile| !is_due(f, now))
}

/// The entry for a file staged now: its deadline is the staging time plus the grace period.
pub open spec fn staged_entry(
    f: PendingFile,
    id: Seq<char>,
    path: Seq<char>,
    file_name: Seq<char>,
    rule: SortRule,
    now: i64,
    grace_period: u64,
    file_size: u64,
) -> bool {
    &&& f.id@ == id
    &&& f.path@ == path
    &&& f.file_name@ == file_name
    &&& f.destination@ == rule.destination_folder@
    &&& f.rule_name@ == rule.name@
    &&& f.added_at == now
    &&& f.move_at == now + grace_period
    &&& f.file_size == file_size
}

/// Staging the same path twice, before its entry leaves the table, gives exactly
/// one entry for that path, and the second staging returns nothing.
pub proof fn lemma_stage_twice_single_entry(
    s0: Seq<PendingFile>,
    s1: Seq<PendingFile>,
    s2: Seq<PendingFile>,
    r1: Option<PendingFile>,
    r2: Option<PendingFile>,
    path: Seq<char>,
    id1: Seq<char>,
    id2: Seq<char>,
    name1: Seq<char>,
    name2: Seq<char>,
    rule1: SortRule,
    rule2: SortRule,
    now1: i64,
    now2: i64,
    grace1: u64,
    grace2: u64,
    size1: u64,
    size2: u64,
)
    requires
        unique_entries(s0),
        !has_id(s0, id1),
        stage_post(s0, s1, r1, id1, path, name1, rule1, now1, grace1, size1),
        stage_post(s1, s2, r2, id2, path, name2, rule2, now2, grace2, size2),
    ensures
        r2 is None,
        s2 == s1,
        single_entry_for(s2, path),
{
    if !has_path(s0, path) {
        let f = r1->Some_0;
        assert(s1[s0.len() as int] == f);
        assert(has_path(s1, path));
        assert forall|j: int| 0 <= j < s1.len() && #[trigger] s1[j].path@ == path implies j == s0.len() by {
            if j < s0.len() {
                assert(s0[j] == s1[j]);
                assert(has_path(s0, path));
            }
        }
    } else {
        let i = choose|i: int| 0 <= i < s0.len() && #[trigger] s0[i].path@ == path;
        assert forall|j: int| 0 <= j < s1.len() && #[trigger] s1[j].path@ == path implies j == i by {
            assert(s1 == s0);
            if j != i {
                assert(s0[i].id@ != s0[j].id@ && s0[i].path@ != s0[j].path@);
            }
        }
    }
}

/// A sweep at `now` hands out only entries whose deadline has been reached, and
/// every entry left behind is still before its deadline.
pub proof fn lemma_sweep_respects_deadlines(s: Seq<PendingFile>, now: i64)
    ensures
        forall|k: int| 0 <= k < due_entries(s, now).len() ==> #[trigger] due_entries(s, now)[k].move_at <= now,
        forall|k: int| 0 <= k < waiting_entries(s, now).len() ==> #[trigger] waiting_entries(s, now)[k].move_at > now,
{
    assert forall|k: int| 0 <= k < due_entries(s, now).len() implies #[trigger] due_entries(s, now)[k].move_at <= now by {
        s.lemma_filter_pred(|f: PendingFile| is_due(f, now), k);
    }
    assert forall|k: int| 0 <= k < waiting_entries(s, now).len() implies #[trigger] waiting_entries(s, now)[k].move_at > now by {
        s.lemma_filter_pred(|f: PendingFile| !is_due(f, now), k);
    }
}

/// An entry whose deadline has been reached is handed out by a sweep at `now`
/// and does not stay behind.
pub proof fn lemma_due_entry_is_swept(s: Seq<PendingFile>, i: int, now: i64)
    requires
        0 <= i < s.len(),
        s[i].move_at <= now,
    ensures
        due_entries(s, now).contains(s[i]),
        !waiting_entries(s, now).contains(s[i]),
{
    s.lemma_filter_contains(|f: PendingFile| is_due(f, now), i);
    if waiting_entries(s, now).contains(s[i]) {
        let k = choose|k: int| 0 <= k < waiting_entries(s, now).len() && waiting_entries(s, now)[k] == s[i];
        s.lemma_filter_pred(|f: PendingFile| !is_due(f, now), k);
    }
}

impl PendingStore {
    pub closed spec fn view(&self) -> Seq<PendingFile> {
        self.files@
    }

    /// Ids are unique, and so are paths.
    pub open spec fn wf(&self) -> bool {
        unique_entries(self@)
    }

    pub fn new() -> (r: PendingStore)
        ensures
            r.wf(),
            r@.len() == 0,
    {
        PendingStore { files: Vec::new() }
    }

    pub fn len(&self) -> (r: usize)
        ensures
            r == self@.len(),
    {
        self.files.len()
    }

    /// Position of the entry with this id, if any.
    fn position_of_id(&self, id: &String) -> (r: Option<usize>)
        ensures
            r matches Some(i) ==> i < self@.len() && self@[i as int].id@ == id@,
            r is None <==> !has_id(self@, id@),
    {
        let mut i: usize = 0;
        while i < self.files.len()
            invariant
                i <= self@.len(),
                forall|k: int| 0 <= k < i ==> #[trigger] self@[k].id@ != id@,
            decreases self@.len() - i,
        {
            if self.files[i].id == *id {
                return Some(i);
            }
            i += 1;
        }
        None
    }

    /// Whether some staged entry refers to `path`.
    pub fn contains_path(&self, path: &String) -> (r: bool)
        ensures
            r == has_path(self@, path@),
    {
        let mut i: usize = 0;
        while i < self.files.len()
            invariant
                i <= self@.len(),
                forall|k: int| 0 <= k < i ==> #[trigger] self@[k].path@ != path@,
            decreases self@.len() - i,
        {
            if self.files[i].path == *path {
                return true;
            }
            i += 1;
        }
        false
    }

    /// Stages a file found at time `now` under the rule that matched it. Staging a
    /// path that is already staged is a no-op, which makes discovery idempotent.
    pub fn stage(
        &mut self,
        id: String,
        path: String,
        file_name: String,
        rule: &SortRule,
        grace_period: u64,
        now: i64,
        file_size: u64,
    ) -> (r: Option<PendingFile>)
        requires
            old(self).wf(),
            grace_period <= i64::MAX,
            now + grace_period <= i64::MAX,
        ensures
            final(self).wf(),
            stage_post(old(self)@, final(self)@, r, id@, path@, file_name@, *rule, now, grace_period, file_size),
    {
        if self.contains_path(&path) {
            return None;
        }
        if self.position_of_id(&id).is_some() {
            return None;
        }
        let entry = PendingFile {
            id,
            path,
            file_name,
            destination: rule.destination_folder.clone(),
            rule_name: rule.name.clone(),
            added_at: now,
            move_at: now + grace_period as i64,
            file_size,
        };
        let result = entry.clone();
        proof {
            assert forall|k: int| 0 <= k < self@.len() implies #[trigger] self@[k].id@ != entry.id@
                && self@[k].path@ != entry.path@ by {
                if self@[k].id@ == entry.id@ {
                    assert(has_id(self@, entry.id@));
                }
                if self@[k].path@ == entry.path@ {
                    assert(has_path(self@, entry.path@));
                }
            }
        }
        self.files.push(entry);
        Some(result)
    }

    /// Removes and returns the entry with this id; the rest keep their order.
    pub fn take(&mut self, id: &String) -> (r: Option<PendingFile>)
        requires
            old(self).wf(),
        ensures
            final(self).wf(),
            r is None <==> !has_id(old(self)@, id@),
            r is None ==> final(self)@ == old(self)@,
            r matches Some(f) ==> f.id@ == id@ && exists|i: int| 0 <= i < old(self)@.len()
                && old(self)@[i] == f && final(self)@ == old(self)@.remove(i),
    {
        match self.position_of_id(id) {
            None => None,
            Some(i) => {
                let f = self.files.remove(i);
                assert(unique_entries(self@)) by {
                    assert forall|a: int, b: int| 0 <= a < self@.len() && 0 <= b < self@.len() && a != b
                        implies #[trigger] self@[a].id@ != #[trigger] self@[b].id@ && self@[a].path@ != self@[b].path@ by {
                        let a0 = if a < i { a } else { a + 1 };
                        let b0 = if b < i { b } else { b + 1 };
                        assert(self@[a] == old(self)@[a0]);
                        assert(self@[b] == old(self)@[b0]);
                        assert(old(self)@[a0].id@ != old(self)@[b0].id@);
                    }
                }
                Some(f)
            },
        }
    }

    /// Drops the entry with this id; tells whether there was one.
    pub fn cancel_pending(&mut self, id: &String) -> (r: bool)
        requires
            old(self).wf(),
        ensures
            final(self).wf(),
            r == has_id(old(self)@, id@),
            !has_id(final(self)@, id@),
            !r ==> final(self)@ == old(self)@,
            r ==> exists|i: int| 0 <= i < old(self)@.len() && old(self)@[i].id@ == id@
                && final(self)@ == old(self)@.remove(i),
    {
        let taken = self.take(id);
        proof {
            if taken is Some {
                let f = taken->Some_0;
                let i = choose|i: int| 0 <= i < old(self)@.len() && old(self)@[i] == f
                    && final(self)@ == old(self)@.remove(i);
                assert forall|k: int| 0 <= k < final(self)@.len() implies #[trigger] final(self)@[k].id@ != id@ by {
                    let k0 = if k < i { k } else { k + 1 };
                    assert(final(self)@[k] == old(self)@[k0]);
                }
            }
        }
        taken.is_some()
    }

    /// Removes every entry whose deadline has been reached at `now` and returns
    /// them in staging order; the entries not yet due stay, in their order.
    pub fn take_due(&mut self, now: i64) -> (r: Vec<PendingFile>)
        requires
            old(self).wf(),
        ensures
            final(self).wf(),
            r@ == due_entries(old(self)@, now),
            final(self)@ == waiting_entries(old(self)@, now),
    {
        let ghost orig = self.files@;
        let mut rest: Vec<PendingFile> = Vec::new();
        std::mem::swap(&mut self.files, &mut rest);
        let mut due: Vec<PendingFile> = Vec::new();
        let mut kept: Vec<PendingFile> = Vec::new();
        let ghost mut k: int = 0;
        proof {
            reveal(Seq::filter);
            assert(orig.subrange(0, 0) =~= Seq::<PendingFile>::empty());
            assert(rest@ =~= orig.subrange(0, orig.len() as int));
        }
        while rest.len() > 0
            invariant
                unique_entries(orig),
                0 <= k <= orig.len(),
                rest@ == orig.subrange(k, orig.len() as int),
                due@ == due_entries(orig.subrange(0, k), now),
                kept@ == waiting_entries(orig.subrange(0, k), now),
                forall|m: int| 0 <= m < kept@.len() ==> exists|j: int| 0 <= j < k && #[trigger] kept@[m] == orig[j],
                unique_entries(kept@),
            decreases rest@.len(),
        {
            let f = rest.remove(0);
            proof {
                reveal(Seq::filter);
            }
            assert(f == orig[k]);
            assert(orig.subrange(0, k + 1).drop_last() =~= orig.subrange(0, k));
            assert(orig.subrange(0, k + 1).last() == orig[k]);
            if f.move_at <= now {
                due.push(f);
            } else {
                proof {
                    assert forall|m: int| 0 <= m < kept@.len() implies #[trigger] kept@[m].id@ != orig[k].id@
                        && kept@[m].path@ != orig[k].path@ by {
                        let j = choose|j: int| 0 <= j < k && #[trigger] kept@[m] == orig[j];
                        assert(orig[j] == kept@[m]);
                    }
                }
                let ghost kept_before = kept@;
                kept.push(f);
                proof {
                    assert forall|m: int| 0 <= m < kept@.len() implies exists|j: int| 0 <= j < k + 1 && #[trigger] kept@[m] == orig[j] by {
                        if m == kept@.len() - 1 {
                            assert(kept@[m] == orig[k]);
                        } else {
                            assert(kept@[m] == kept_before[m]);
                            let j = choose|j: int| 0 <= j < k && #[trigger] kept_before[m] == orig[j];
                            assert(kept@[m] == orig[j]);
                        }
                    }
                }
            }
            proof {
                k = k + 1;
            }
            assert(rest@ =~= orig.subrange(k, orig.len() as int));
        }
        assert(orig.subrange(0, k) =~= orig);
        self.files = kept;
        due
    }

    /// A copy of every staged entry, in staging order.
    pub fn get_pending_files(&self) -> (r: Vec<PendingFile>)
        ensures
            r@ == self@,
    {
        let mut out: Vec<PendingFile> = Vec::new();
        let mut i: usize = 0;
        while i < self.files.len()
            invariant
                i <= self@.len(),
                out@ == self@.subrange(0, i as int),
            decreases self@.len() - i,
        {
            out.push(self.files[i].clone());
            i += 1;
            assert(out@ =~= self@.subrange(0, i as int));
        }
        assert(out@ =~= self@);
        out
    }
}

} // verus!
