//! The watcher's decisions: lifecycle, which events stage files, when staged
//! files are due, and what a completed move records.
use vstd::prelude::*;
use crate::history::{History, MoveRecord};
use crate::pending::{
    due_entries, has_id, has_path, stage_post, unique_entries, waiting_entries, PendingFile, PendingStore,
};
use crate::rules::{match_file, none_eligible, is_valid_file, is_winner, valid_file_name};
use crate::schema::{new_id, Config};
use crate::text::lower_of;

verus! {

/// Whether the watcher runs, and whether it is paused.
#[derive(Clone, Copy, Debug, PartialEq, Eq, Structural)]
pub struct WatcherStatus {
    pub is_running: bool,
    pub is_paused: bool,
}

/// Why a watcher operation was refused.
#[derive(Clone, Copy, Debug, PartialEq, Eq, Structural)]
pub enum WatchError {
    /// The watched folder does not exist.
    FolderMissing,
    /// No staged file has this id.
    PendingNotFound,
}

/// The watcher's shared state: configuration, staged files and the two flags.
pub struct FileWatcher {
    config: Config,
    pending: PendingStore,
    running: bool,
    paused: bool,
}

/// Relies on `chrono::Utc::now` and `DateTime::timestamp`: the current time in
/// whole seconds since the epoch. Nothing is promised of the value.
#[verifier::external_body]
pub(crate) fn now_timestamp() -> (r: i64) {
    chrono::Utc::now().timestamp()
}

/// Deadlines computed from `now` fit in an `i64`.
pub open spec fn deadline_fits(now: i64, grace_period: u64) -> bool {
    grace_period <= i64::MAX && now + grace_period <= i64::MAX
}

/// The text of an optional string.
pub open spec fn opt_view(o: Option<&str>) -> Option<Seq<char>> {
    match o {
        Some(s) => Some(s@),
        None => None,
    }
}

/// What offering a file to the pending table does: nothing for an invalid name,
/// a missing extension, or a file that no rule claims; otherwise the file is
/// staged under the winning rule, with the configured grace period.
pub open spec fn stage_outcome(
    config: Config,
    before: Seq<PendingFile>,
    after: Seq<PendingFile>,
    r: Option<PendingFile>,
    id: Seq<char>,
    path: Seq<char>,
    file_name: Seq<char>,
    extension: Option<Seq<char>>,
    file_size: u64,
    now: i64,
) -> bool {
    match extension {
        None => r is None && after == before,
        Some(e) => {
            let rules = config.rules@;
            let ext = lower_of(e);
            if !valid_file_name(file_name) || none_eligible(rules, file_name, ext, file_size) {
                r is None && after == before
            } else {
                exists|i: int|
                    is_winner(rules, i, file_name, ext, file_size) && stage_post(
                        before,
                        after,
                        r,
                        id,
                        path,
                        file_name,
                        rules[i],
                        now,
                        config.grace_period_seconds,
                        file_size,
                    )
            }
        },
    }
}

/// A rescan offering a valid file that a rule claims, not staged yet and under a
/// fresh id, stages it, whatever events were dropped for it while paused.
pub proof fn lemma_rescan_stages_missed_file(
    config: Config,
    before: Seq<PendingFile>,
    after: Seq<PendingFile>,
    r: Option<PendingFile>,
    id: Seq<char>,
    path: Seq<char>,
    file_name: Seq<char>,
    extension: Seq<char>,
    file_size: u64,
    now: i64,
)
    requires
        stage_outcome(config, before, after, r, id, path, file_name, Some(extension), file_size, now),
        valid_file_name(file_name),
        !none_eligible(config.rules@, file_name, lower_of(extension), file_size),
        !has_path(before, path),
        !has_id(before, id),
    ensures
        r matches Some(f) && f.path@ == path && after == before.push(f) && has_path(after, path),
{
    let f = r->Some_0;
    assert(after[before.len() as int] == f);
}

impl FileWatcher {
    pub closed spec fn spec_config(&self) -> Config {
        self.config
    }

    pub closed spec fn spec_pending(&self) -> Seq<PendingFile> {
        self.pending@
    }

    pub closed spec fn spec_running(&self) -> bool {
        self.running
    }

    pub closed spec fn spec_paused(&self) -> bool {
        self.paused
    }

    /// The staged files have pairwise distinct ids and paths.
    pub open spec fn wf(&self) -> bool {
        unique_entries(self.spec_pending())
    }

    /// A stopped, unpaused watcher with nothing staged.
    pub fn new(config: Config) -> (r: FileWatcher)
        ensures
            r.wf(),
            r.spec_config() == config,
            r.spec_pending().len() == 0,
            !r.spec_running(),
            !r.spec_paused(),
    {
        FileWatcher { config, pending: PendingStore::new(), running: false, paused: false }
    }

    pub fn config(&self) -> (r: &Config)
        ensures
            *r == self.spec_config(),
    {
        &self.config
    }

    /// Replaces the configuration; staged files keep their deadlines.
    pub fn update_config(&mut self, config: Config)
        requires
            old(self).wf(),
        ensures
            final(self).wf(),
            final(self).spec_config() == config,
            final(self).spec_pending() == old(self).spec_pending(),
            final(self).spec_running() == old(self).spec_running(),
            final(self).spec_paused() == old(self).spec_paused(),
    {
        self.config = config;
    }

    /// Starts watching. Starting a running watcher does nothing; a missing watch
    /// folder is refused.
    pub fn start(&mut self, watch_folder_exists: bool) -> (r: Result<(), WatchError>)
        requires
            old(self).wf(),
        ensures
            final(self).wf(),
            old(self).spec_running() ==> r is Ok && *final(self) == *old(self),
            !old(self).spec_running() && !watch_folder_exists ==> r == Err::<(), WatchError>(WatchError::FolderMissing)
                && *final(self) == *old(self),
            !old(self).spec_running() && watch_folder_exists ==> r is Ok && final(self).spec_running()
                && final(self).spec_paused() == old(self).spec_paused()
                && final(self).spec_pending() == old(self).spec_pending()
                && final(self).spec_config() == old(self).spec_config(),
    {
        if self.running {
            return Ok(());
        }
        if !watch_folder_exists {
            return Err(WatchError::FolderMissing);
        }
        self.running = true;
        Ok(())
    }

    /// Stops watching; the loops notice at their next poll.
    pub fn stop(&mut self)
        requires
            old(self).wf(),
        ensures
            final(self).wf(),
            !final(self).spec_running(),
            final(self).spec_paused() == old(self).spec_paused(),
            final(self).spec_pending() == old(self).spec_pending(),
            final(self).spec_config() == old(self).spec_config(),
    {
        self.running = false;
    }

    pub fn pause(&mut self)
        requires
            old(self).wf(),
        ensures
            final(self).wf(),
            final(self).spec_paused(),
            final(self).spec_running() == old(self).spec_running(),
            final(self).spec_pending() == old(self).spec_pending(),
            final(self).spec_config() == old(self).spec_config(),
    {
        self.paused = true;
    }

    pub fn resume(&mut self)
        requires
            old(self).wf(),
        ensures
            final(self).wf(),
            !final(self).spec_paused(),
            final(self).spec_running() == old(self).spec_running(),
            final(self).spec_pending() == old(self).spec_pending(),
            final(self).spec_config() == old(self).spec_config(),
    {
        self.paused = false;
    }

    pub fn is_running(&self) -> (r: bool)
        ensures
            r == self.spec_running(),
    {
        self.running
    }

    pub fn is_paused(&self) -> (r: bool)
        ensures
            r == self.spec_paused(),
    {
        self.paused
    }

    pub fn status(&self) -> (r: WatcherStatus)
        ensures
            r.is_running == self.spec_running(),
            r.is_paused == self.spec_paused(),
    {
        WatcherStatus { is_running: self.running, is_paused: self.paused }
    }

    /// Every staged file, in staging order.
    pub fn get_pending_files(&self) -> (r: Vec<PendingFile>)
        ensures
            r@ == self.spec_pending(),
    {
        self.pending.get_pending_files()
    }

    /// Drops a staged file; tells whether it was there.
    pub fn cancel_pending(&mut self, id: &String) -> (r: bool)
        requires
            old(self).wf(),
        ensures
            final(self).wf(),
            r == has_id(old(self).spec_pending(), id@),
            !has_id(final(self).spec_pending(), id@),
            !r ==> final(self).spec_pending() == old(self).spec_pending(),
            r ==> exists|i: int| 0 <= i < old(self).spec_pending().len() && old(self).spec_pending()[i].id@ == id@
                && final(self).spec_pending() == old(self).spec_pending().remove(i),
            final(self).spec_config() == old(self).spec_config(),
            final(self).spec_running() == old(self).spec_running(),
            final(self).spec_paused() == old(self).spec_paused(),
    {
        self.pending.cancel_pending(id)
    }

    /// Stages a file seen in the watched folder, found at time `now`: a valid
    /// file name that a rule claims, and a path not staged yet. Used by the
    /// full rescan, and by the event loop while not paused.
    pub fn stage_file(
        &mut self,
        id: String,
        path: String,
        file_name: &str,
        extension: Option<&str>,
        file_size: u64,
        now: i64,
    ) -> (r: Option<PendingFile>)
        requires
            old(self).wf(),
            deadline_fits(now, old(self).spec_config().grace_period_seconds),
        ensures
            final(self).wf(),
            final(self).spec_config() == old(self).spec_config(),
            final(self).spec_running() == old(self).spec_running(),
            final(self).spec_paused() == old(self).spec_paused(),
            stage_outcome(
                old(self).spec_config(),
                old(self).spec_pending(),
                final(self).spec_pending(),
                r,
                id@,
                path@,
                file_name@,
                opt_view(extension),
                file_size,
                now,
            ),
    {
        if !is_valid_file(file_name) {
            return None;
        }
        let grace = self.config.grace_period_seconds;
        match match_file(file_name, extension, file_size, self.config.rules.as_slice()) {
            None => None,
            Some(rule) => {
                let file_name_owned: String = file_name.to_owned();
                self.pending.stage(id, path, file_name_owned, rule, grace, now, file_size)
            },
        }
    }

    /// A file event from the watched folder. While paused the event is dropped,
    /// not queued: nothing is staged for it until a rescan sees the file.
    pub fn on_file_event(
        &mut self,
        id: String,
        path: String,
        file_name: &str,
        extension: Option<&str>,
        file_size: u64,
        now: i64,
    ) -> (r: Option<PendingFile>)
        requires
            old(self).wf(),
            deadline_fits(now, old(self).spec_config().grace_period_seconds),
        ensures
            final(self).wf(),
            old(self).spec_paused() ==> r is None && *final(self) == *old(self),
            final(self).spec_config() == old(self).spec_config(),
            final(self).spec_running() == old(self).spec_running(),
            final(self).spec_paused() == old(self).spec_paused(),
            !old(self).spec_paused() ==> stage_outcome(
                old(self).spec_config(),
                old(self).spec_pending(),
                final(self).spec_pending(),
                r,
                id@,
                path@,
                file_name@,
                opt_view(extension),
                file_size,
                now,
            ),
    {
        if self.paused {
            return None;
        }
        self.stage_file(id, path, file_name, extension, file_size, now)
    }

    /// A sweep at time `now`: unless paused, removes and returns every staged
    /// file whose deadline has passed, whether or not its move will succeed.
    pub fn sweep(&mut self, now: i64) -> (r: Vec<PendingFile>)
        requires
            old(self).wf(),
        ensures
            final(self).wf(),
            old(self).spec_paused() ==> r@.len() == 0 && *final(self) == *old(self),
            !old(self).spec_paused() ==> r@ == due_entries(old(self).spec_pending(), now)
                && final(self).spec_pending() == waiting_entries(old(self).spec_pending(), now),
            final(self).spec_config() == old(self).spec_config(),
            final(self).spec_running() == old(self).spec_running(),
            final(self).spec_paused() == old(self).spec_paused(),
    {
        if self.paused {
            return Vec::new();
        }
        self.pending.take_due(now)
    }

    /// Takes a staged file out for an immediate move, ahead of its deadline.
    pub fn move_now(&mut self, id: &String) -> (r: Result<PendingFile, WatchError>)
        requires
            old(self).wf(),
        ensures
            final(self).wf(),
            r is Err <==> !has_id(old(self).spec_pending(), id@),
            r is Err ==> r == Err::<PendingFile, WatchError>(WatchError::PendingNotFound)
                && final(self).spec_pending() == old(self).spec_pending(),
            r matches Ok(f) ==> f.id@ == id@ && exists|i: int| 0 <= i < old(self).spec_pending().len()
                && old(self).spec_pending()[i] == f
                && final(self).spec_pending() == old(self).spec_pending().remove(i),
            final(self).spec_config() == old(self).spec_config(),
            final(self).spec_running() == old(self).spec_running(),
            final(self).spec_paused() == old(self).spec_paused(),
    {
        match self.pending.take(id) {
            Some(f) => Ok(f),
            None => Err(WatchError::PendingNotFound),
        }
    }

    /// Records a successful move of `pending` to `new_path`: a new undoable
    /// history entry, and one more file in the all-time count (saturating).
    pub fn complete_move(
        &mut self,
        history: &mut History,
        pending: &PendingFile,
        new_path: String,
        record_id: String,
        timestamp: i64,
    )
        requires
            old(self).wf(),
            old(history).wf(),
        ensures
            final(self).wf(),
            final(history).wf(),
            final(history).spec_limit() == old(history).spec_limit(),
            final(history)@ == crate::history::add_bounded(old(history)@, MoveRecord {
                id: record_id,
                original_path: pending.path,
                new_path,
                rule_name: pending.rule_name,
                timestamp,
                file_size: pending.file_size,
                can_undo: true,
            }, old(history).spec_limit()),
            final(self).spec_config().total_files_moved == (if old(self).spec_config().total_files_moved == u64::MAX {
                u64::MAX
            } else {
                (old(self).spec_config().total_files_moved + 1) as u64
            }),
            final(self).spec_config().rules == old(self).spec_config().rules,
            final(self).spec_config().grace_period_seconds == old(self).spec_config().grace_period_seconds,
            final(self).spec_pending() == old(self).spec_pending(),
            final(self).spec_running() == old(self).spec_running(),
            final(self).spec_paused() == old(self).spec_paused(),
    {
        let record = MoveRecord {
            id: record_id,
            original_path: pending.path.clone(),
            new_path,
            rule_name: pending.rule_name.clone(),
            timestamp,
            file_size: pending.file_size,
            can_undo: true,
        };
        history.add(record);
        self.config.total_files_moved = self.config.total_files_moved.saturating_add(1);
    }
    /// Stages a file seen now under a fresh id, as the rescan does. Nothing is
    /// staged when the clock reads so late that the deadline would not fit.
    pub fn add_pending_file(
        &mut self,
        path: String,
        file_name: &str,
        extension: Option<&str>,
        file_size: u64,
    ) -> (r: Option<PendingFile>)
        requires
            old(self).wf(),
        ensures
            final(self).wf(),
            final(self).spec_config() == old(self).spec_config(),
            final(self).spec_running() == old(self).spec_running(),
            final(self).spec_paused() == old(self).spec_paused(),
            r is None ==> final(self).spec_pending() == old(self).spec_pending(),
            extension is None || !valid_file_name(file_name@) || has_path(old(self).spec_pending(), path@)
                || (extension matches Some(e) && none_eligible(old(self).spec_config().rules@, file_name@, lower_of(e@), file_size))
                ==> r is None && final(self).spec_pending() == old(self).spec_pending(),
            r matches Some(f) ==> exists|now: i64| stage_outcome(
                old(self).spec_config(),
                old(self).spec_pending(),
                final(self).spec_pending(),
                r,
                f.id@,
                path@,
                file_name@,
                opt_view(extension),
                file_size,
                now,
            ),
    {
        let now = now_timestamp();
        let grace = self.config.grace_period_seconds;
        if grace > i64::MAX as u64 || now > i64::MAX - grace as i64 {
            return None;
        }
        let id = new_id();
        self.stage_file(id, path, file_name, extension, file_size, now)
    }

    /// A file event handled at the current time under a fresh id; see
    /// `on_file_event`. Dropped while paused, as is a file whose deadline would
    /// not fit in an `i64`.
    pub fn on_file_event_now(
        &mut self,
        path: String,
        file_name: &str,
        extension: Option<&str>,
        file_size: u64,
    ) -> (r: Option<PendingFile>)
        requires
            old(self).wf(),
        ensures
            final(self).wf(),
            old(self).spec_paused() ==> r is None && *final(self) == *old(self),
            final(self).spec_config() == old(self).spec_config(),
            final(self).spec_running() == old(self).spec_running(),
            final(self).spec_paused() == old(self).spec_paused(),
            r is None ==> final(self).spec_pending() == old(self).spec_pending(),
            extension is None || !valid_file_name(file_name@) || has_path(old(self).spec_pending(), path@)
                || (extension matches Some(e) && none_eligible(old(self).spec_config().rules@, file_name@, lower_of(e@), file_size))
                ==> r is None && final(self).spec_pending() == old(self).spec_pending(),
            r matches Some(f) ==> exists|now: i64| stage_outcome(
                old(self).spec_config(),
                old(self).spec_pending(),
                final(self).spec_pending(),
                r,
                f.id@,
                path@,
                file_name@,
                opt_view(extension),
                file_size,
                now,
            ),
    {
        if self.paused {
            return None;
        }
        self.add_pending_file(path, file_name, extension, file_size)
    }

    /// A sweep at the current time; see `sweep`.
    pub fn process_due(&mut self) -> (r: Vec<PendingFile>)
        requires
            old(self).wf(),
        ensures
            final(self).wf(),
            old(self).spec_paused() ==> r@.len() == 0 && *final(self) == *old(self),
            !old(self).spec_paused() ==> exists|now: i64| r@ == due_entries(old(self).spec_pending(), now)
                && final(self).spec_pending() == waiting_entries(old(self).spec_pending(), now),
            final(self).spec_config() == old(self).spec_config(),
            final(self).spec_running() == old(self).spec_running(),
            final(self).spec_paused() == old(self).spec_paused(),
    {
        let now = now_timestamp();
        self.sweep(now)
    }

    /// Records a successful move of `pending` to `new_path` under a fresh id,
    /// stamped with the current time; see `complete_move`.
    pub fn record_move(&mut self, history: &mut History, pending: &PendingFile, new_path: String)
        requires
            old(self).wf(),
            old(history).wf(),
        ensures
            final(self).wf(),
            final(history).wf(),
            final(history).spec_limit() == old(history).spec_limit(),
            exists|id: String, timestamp: i64| final(history)@ == crate::history::add_bounded(old(history)@, MoveRecord {
                id,
                original_path: pending.path,
                new_path,
                rule_name: pending.rule_name,
                timestamp,
                file_size: pending.file_size,
                can_undo: true,
            }, old(history).spec_limit()),
            final(self).spec_config().total_files_moved == (if old(self).spec_config().total_files_moved == u64::MAX {
                u64::MAX
            } else {
                (old(self).spec_config().total_files_moved + 1) as u64
            }),
            final(self).spec_config().rules == old(self).spec_config().rules,
            final(self).spec_config().grace_period_seconds == old(self).spec_config().grace_period_seconds,
            final(self).spec_pending() == old(self).spec_pending(),
            final(self).spec_running() == old(self).spec_running(),
            final(self).spec_paused() == old(self).spec_paused(),
    {
        let id = new_id();
        let timestamp = now_timestamp();
        self.complete_move(history, pending, new_path, id, timestamp);
    }
}

} // verus!
