//! The bounded log of completed moves, newest first, with single-use undo.
use vstd::prelude::*;
use std::collections::VecDeque;

verus! {

/// Seconds in a day.
pub const SECONDS_PER_DAY: i64 = 86400;

/// One completed move. `timestamp` is in seconds since the epoch (UTC).
#[derive(Debug)]
pub struct MoveRecord {
    pub id: String,
    pub original_path: String,
    pub new_path: String,
    pub rule_name: String,
    pub timestamp: i64,
    pub file_size: u64,
    pub can_undo: bool,
}

impl Clone for MoveRecord {
    fn clone(&self) -> (r: Self)
        ensures
            r == *self,
    {
        MoveRecord {
            id: self.id.clone(),
            original_path: self.original_path.clone(),
            new_path: self.new_path.clone(),
            rule_name: self.rule_name.clone(),
            timestamp: self.timestamp,
            file_size: self.file_size,
            can_undo: self.can_undo,
        }
    }
}

/// Counts over the records currently kept.
#[derive(Clone, Copy, Debug, PartialEq, Eq, Structural)]
pub struct HistoryStats {
    pub total: usize,
    pub today: usize,
    pub this_week: usize,
}

/// Why an undo was refused.
#[derive(Clone, Copy, Debug, PartialEq, Eq, Structural)]
pub enum UndoError {
    /// No kept record has this id.
    NotFound,
    /// The record was undone already; undo is single-use.
    AlreadyUndone,
    /// The moved file is no longer at its new path.
    SourceMissing,
    /// Something already occupies the original path.
    DestinationOccupied,
}

/// `s` with `r` in front, cut to its first `limit` entries.
pub open spec fn add_bounded(s: Seq<MoveRecord>, r: MoveRecord, limit: nat) -> Seq<MoveRecord> {
    let t = seq![r] + s;
    if t.len() > limit { t.subrange(0, limit as int) } else { t }
}

/// Position of the first record of `s` with this id, if any.
pub open spec fn first_with_id(s: Seq<MoveRecord>, id: Seq<char>, i: int) -> bool {
    0 <= i < s.len() && s[i].id@ == id && forall|j: int| 0 <= j < i ==> #[trigger] s[j].id@ != id
}

pub open spec fn has_record(s: Seq<MoveRecord>, id: Seq<char>) -> bool {
    exists|i: int| 0 <= i < s.len() && #[trigger] s[i].id@ == id
}

/// The result of an undo check on log `s` for record `id`, given whether the moved
/// file is still at its new path and whether the original path is taken.
pub open spec fn undo_outcome(
    s: Seq<MoveRecord>,
    id: Seq<char>,
    source_exists: bool,
    destination_occupied: bool,
    r: Result<MoveRecord, UndoError>,
) -> bool {
    if !has_record(s, id) {
        r == Err::<MoveRecord, UndoError>(UndoError::NotFound)
    } else {
        exists|i: int| #[trigger] first_with_id(s, id, i) && {
            if !s[i].can_undo {
                r == Err::<MoveRecord, UndoError>(UndoError::AlreadyUndone)
            } else if !source_exists {
                r == Err::<MoveRecord, UndoError>(UndoError::SourceMissing)
            } else if destination_occupied {
                r == Err::<MoveRecord, UndoError>(UndoError::DestinationOccupied)
            } else {
                r == Ok::<MoveRecord, UndoError>(s[i])
            }
        }
    }
}

/// `s` with the first record of this id marked as no longer undoable.
pub open spec fn marked_undone(s: Seq<MoveRecord>, id: Seq<char>, t: Seq<MoveRecord>) -> bool {
    if has_record(s, id) {
        exists|i: int| #[trigger] first_with_id(s, id, i)
            && t == s.update(i, MoveRecord { can_undo: false, ..s[i] })
    } else {
        t == s
    }
}

/// Start of the UTC day that contains `now`.
pub open spec fn day_start(now: int) -> int {
    now - now % (SECONDS_PER_DAY as int)
}

/// Number of records in `s` stamped at or after `since`.
pub open spec fn count_since(s: Seq<MoveRecord>, since: int) -> nat
    decreases s.len(),
{
    if s.len() == 0 {
        0
    } else {
        count_since(s.drop_last(), since) + if s.last().timestamp >= since { 1nat } else { 0nat }
    }
}

/// Adding to a log within its limit keeps it within the limit; the new record
/// comes first, the older ones follow in their order, and only the oldest leave.
pub proof fn lemma_add_bounded_newest_first(s: Seq<MoveRecord>, r: MoveRecord, limit: nat)
    requires
        s.len() <= limit,
    ensures
        add_bounded(s, r, limit).len() <= limit,
        limit > 0 ==> add_bounded(s, r, limit)[0] == r,
        add_bounded(s, r, limit).len() == (if s.len() < limit { s.len() + 1 } else { limit }),
        forall|i: int| 0 <= i < add_bounded(s, r, limit).len() - 1
            ==> #[trigger] add_bounded(s, r, limit)[i + 1] == s[i],
{
    let t = seq![r] + s;
    assert forall|i: int| 0 <= i < add_bounded(s, r, limit).len() - 1
        implies #[trigger] add_bounded(s, r, limit)[i + 1] == s[i] by {
        assert(t[i + 1] == s[i]);
    }
}

/// At most one position of `s` is the first with a given id.
pub proof fn lemma_first_with_id_unique(s: Seq<MoveRecord>, id: Seq<char>, i: int, j: int)
    requires
        first_with_id(s, id, i),
        first_with_id(s, id, j),
    ensures
        i == j,
{
    if i < j {
        assert(s[i].id@ != id);
    } else if j < i {
        assert(s[j].id@ != id);
    }
}

/// Once a record has been undone and marked, every later undo of the same id is
/// refused as already undone, whatever the state of the files.
pub proof fn lemma_undo_single_use(
    s: Seq<MoveRecord>,
    t: Seq<MoveRecord>,
    id: Seq<char>,
    source_exists: bool,
    destination_occupied: bool,
    first: MoveRecord,
    source_exists2: bool,
    destination_occupied2: bool,
    second: Result<MoveRecord, UndoError>,
)
    requires
        undo_outcome(s, id, source_exists, destination_occupied, Ok(first)),
        marked_undone(s, id, t),
        undo_outcome(t, id, source_exists2, destination_occupied2, second),
    ensures
        second == Err::<MoveRecord, UndoError>(UndoError::AlreadyUndone),
{
    let i = choose|i: int| #[trigger] first_with_id(s, id, i) && t == s.update(i, MoveRecord { can_undo: false, ..s[i] });
    assert(t[i].id@ == id);
    assert forall|j: int| 0 <= j < i implies #[trigger] t[j].id@ != id by {
        assert(t[j] == s[j]);
    }
    assert(first_with_id(t, id, i));
    assert(has_record(t, id));
    let k = choose|k: int| #[trigger] first_with_id(t, id, k) && {
        if !t[k].can_undo {
            second == Err::<MoveRecord, UndoError>(UndoError::AlreadyUndone)
        } else if !source_exists2 {
            second == Err::<MoveRecord, UndoError>(UndoError::SourceMissing)
        } else if destination_occupied2 {
            second == Err::<MoveRecord, UndoError>(UndoError::DestinationOccupied)
        } else {
            second == Ok::<MoveRecord, UndoError>(t[k])
        }
    };
    lemma_first_with_id_unique(t, id, i, k);
}

/// An undo goes ahead only when the moved file is still at its new path and the
/// original path is free; it then restores to exactly the recorded original
/// path of the record asked for.
pub proof fn lemma_undo_restores_original_path(
    s: Seq<MoveRecord>,
    id: Seq<char>,
    source_exists: bool,
    destination_occupied: bool,
    r: Result<MoveRecord, UndoError>,
)
    requires
        undo_outcome(s, id, source_exists, destination_occupied, r),
    ensures
        !source_exists || destination_occupied ==> r is Err,
        r matches Ok(m) ==> m.can_undo && m.id@ == id && exists|i: int| #[trigger] first_with_id(s, id, i)
            && m.original_path == s[i].original_path && m.new_path == s[i].new_path,
{
}

/// Marking a record undone changes no id and never makes a record undoable
/// again: `can_undo` only goes from true to false.
pub proof fn lemma_mark_undone_one_way(s: Seq<MoveRecord>, id: Seq<char>, t: Seq<MoveRecord>)
    requires
        marked_undone(s, id, t),
    ensures
        t.len() == s.len(),
        forall|i: int| 0 <= i < t.len() ==> #[trigger] t[i].id == s[i].id,
        forall|i: int| 0 <= i < t.len() && #[trigger] t[i].can_undo ==> s[i].can_undo,
        forall|i: int| 0 <= i < t.len() && t[i].id@ == id && #[trigger] first_with_id(s, id, i) ==> !t[i].can_undo,
{
    if has_record(s, id) {
        let k = choose|k: int| #[trigger] first_with_id(s, id, k) && t == s.update(k, MoveRecord { can_undo: false, ..s[k] });
        assert forall|i: int| 0 <= i < t.len() && t[i].id@ == id && #[trigger] first_with_id(s, id, i) implies !t[i].can_undo by {
            lemma_first_with_id_unique(s, id, i, k);
        }
    } else {
        assert forall|i: int| 0 <= i < t.len() && t[i].id@ == id && #[trigger] first_with_id(s, id, i) implies !t[i].can_undo by {
            assert(s[i].id@ == id);
        }
    }
}

/// The log of completed moves, newest first, never longer than its limit.
pub struct History {
    records: VecDeque<MoveRecord>,
    limit: usize,
}

impl History {
    pub closed spec fn view(&self) -> Seq<MoveRecord> {
        self.records@
    }

    pub closed spec fn spec_limit(&self) -> nat {
        self.limit as nat
    }

    pub open spec fn wf(&self) -> bool {
        self@.len() <= self.spec_limit()
    }

    /// An empty log that keeps at most `limit` records.
    pub fn new(limit: usize) -> (r: History)
        ensures
            r.wf(),
            r@.len() == 0,
            r.spec_limit() == limit,
    {
        History { records: VecDeque::new(), limit }
    }

    /// A log holding the first `limit` of `records` (newest first), as read back
    /// from storage.
    pub fn from_records(records: Vec<MoveRecord>, limit: usize) -> (r: History)
        ensures
            r.wf(),
            r.spec_limit() == limit,
            r@ == (if records@.len() > limit { records@.subrange(0, limit as int) } else { records@ }),
    {
        let mut rest = records;
        rest.truncate(limit);
        let ghost kept = rest@;
        let mut deque: VecDeque<MoveRecord> = VecDeque::new();
        while rest.len() > 0
            invariant
                deque@ + rest@ == kept,
                kept.len() <= limit,
            decreases rest@.len(),
        {
            let ghost before = rest@;
            let r = rest.remove(0);
            deque.push_back(r);
            assert(deque@ + rest@ =~= kept) by {
                assert(before =~= seq![r] + rest@);
            }
        }
        assert(deque@ =~= kept);
        History { records: deque, limit }
    }

    pub fn limit(&self) -> (r: usize)
        ensures
            r == self.spec_limit(),
    {
        self.limit
    }

    pub fn len(&self) -> (r: usize)
        ensures
            r == self@.len(),
    {
        self.records.len()
    }

    /// Puts `record` in front; the oldest records leave while the log is over its limit.
    pub fn add(&mut self, record: MoveRecord)
        requires
            old(self).wf(),
        ensures
            final(self).wf(),
            final(self).spec_limit() == old(self).spec_limit(),
            final(self)@ == add_bounded(old(self)@, record, old(self).spec_limit()),
    {
        let ghost r = record;
        self.records.push_front(record);
        if self.records.len() > self.limit {
            self.records.truncate(self.limit);
        }
    }

    /// Every kept record, newest first.
    pub fn get_all(&self) -> (r: Vec<MoveRecord>)
        ensures
            r@ == self@,
    {
        self.get_recent(self.records.len())
    }

    /// The `count` newest records, or all of them if there are fewer.
    pub fn get_recent(&self, count: usize) -> (r: Vec<MoveRecord>)
        ensures
            r@ == (if count < self@.len() { self@.subrange(0, count as int) } else { self@ }),
    {
        let n: usize = if count < self.records.len() { count } else { self.records.len() };
        let mut out: Vec<MoveRecord> = Vec::new();
        let mut i: usize = 0;
        while i < n
            invariant
                n <= self@.len(),
                i <= n,
                out@ == self@.subrange(0, i as int),
            decreases n - i,
        {
            out.push(self.records[i].clone());
            i += 1;
            assert(out@ =~= self@.subrange(0, i as int));
        }
        assert(self@.subrange(0, self@.len() as int) =~= self@);
        out
    }

    /// Position of the first record with this id.
    fn position_of(&self, id: &String) -> (r: Option<usize>)
        ensures
            r matches Some(i) ==> first_with_id(self@, id@, i as int),
            r is None <==> !has_record(self@, id@),
    {
        let mut i: usize = 0;
        while i < self.records.len()
            invariant
                i <= self@.len(),
                forall|k: int| 0 <= k < i ==> #[trigger] self@[k].id@ != id@,
            decreases self@.len() - i,
        {
            if self.records[i].id == *id {
                return Some(i);
            }
            i += 1;
        }
        None
    }

    /// The first (newest) record with this id.
    pub fn find(&self, id: &String) -> (r: Option<MoveRecord>)
        ensures
            r is None <==> !has_record(self@, id@),
            r matches Some(m) ==> exists|i: int| #[trigger] first_with_id(self@, id@, i) && m == self@[i],
    {
        match self.position_of(id) {
            Some(i) => Some(self.records[i].clone()),
            None => None,
        }
    }

    /// Marks the record with this id as undone, for good. An unknown id changes nothing.
    pub fn mark_undone(&mut self, id: &String)
        requires
            old(self).wf(),
        ensures
            final(self).wf(),
            final(self).spec_limit() == old(self).spec_limit(),
            marked_undone(old(self)@, id@, final(self)@),
    {
        match self.position_of(id) {
            Some(i) => {
                if let Some(mut rec) = self.records.remove(i) {
                    rec.can_undo = false;
                    self.records.insert(i, rec);
                }
                assert(first_with_id(old(self)@, id@, i as int));
                assert(self@ =~= old(self)@.update(i as int, MoveRecord { can_undo: false, ..old(self)@[i as int] }));
            },
            None => {},
        }
    }

    /// Drops every record.
    pub fn clear(&mut self)
        requires
            old(self).wf(),
        ensures
            final(self).wf(),
            final(self).spec_limit() == old(self).spec_limit(),
            final(self)@.len() == 0,
    {
        self.records.clear();
    }

    /// Decides whether the record with this id can be undone, given whether its
    /// file is still at the new path and whether the original path is occupied.
    /// On success it returns the record: the file goes back from `new_path` to
    /// exactly `original_path`. The log is never changed here.
    pub fn check_undo(&self, id: &String, source_exists: bool, destination_occupied: bool) -> (r: Result<MoveRecord, UndoError>)
        ensures
            undo_outcome(self@, id@, source_exists, destination_occupied, r),
    {
        match self.position_of(id) {
            None => Err(UndoError::NotFound),
            Some(i) => {
                assert(first_with_id(self@, id@, i as int));
                let rec = &self.records[i];
                if !rec.can_undo {
                    Err(UndoError::AlreadyUndone)
                } else if !source_exists {
                    Err(UndoError::SourceMissing)
                } else if destination_occupied {
                    Err(UndoError::DestinationOccupied)
                } else {
                    Ok(rec.clone())
                }
            },
        }
    }

    /// Counts over the kept records at time `now`: all of them, those since the
    /// start of the current UTC day, and those of the last seven days.
    pub fn stats(&self, now: i64) -> (r: HistoryStats)
        requires
            now >= i64::MIN + 7 * SECONDS_PER_DAY,
        ensures
            r.total == self@.len(),
            r.today == count_since(self@, day_start(now as int)),
            r.this_week == count_since(self@, now - 7 * SECONDS_PER_DAY),
    {
        let rem: i64 = now % SECONDS_PER_DAY;
        let today_start: i64 = if rem < 0 { now - rem - SECONDS_PER_DAY } else { now - rem };
        assert(today_start == day_start(now as int));
        let week_start: i64 = now - 7 * SECONDS_PER_DAY;
        let mut today: usize = 0;
        let mut week: usize = 0;
        let mut i: usize = 0;
        while i < self.records.len()
            invariant
                i <= self@.len(),
                today == count_since(self@.subrange(0, i as int), today_start as int),
                week == count_since(self@.subrange(0, i as int), week_start as int),
                today <= i,
                week <= i,
            decreases self@.len() - i,
        {
            assert(self@.subrange(0, i + 1).drop_last() =~= self@.subrange(0, i as int));
            if self.records[i].timestamp >= today_start {
                today += 1;
            }
            if self.records[i].timestamp >= week_start {
                week += 1;
            }
            i += 1;
        }
        assert(self@.subrange(0, self@.len() as int) =~= self@);
        HistoryStats { total: self.records.len(), today, this_week: week }
    }
}

} // verus!
