//! The session: the one open repository and the settings, behind one owner.
//! Every command goes through it; the destructive ones keep a journal that
//! shows each of them preceded by its safety snapshot.

use vstd::prelude::*;
use vstd::string::*;
use crate::backend::path_exists;
use crate::error::AppError;
use crate::models::{
    BranchInfo, CommitInfo, CommitOptions, ConflictInfo, DiffInfo, FileStatus, RepositoryInfo,
    Settings, StageResult, StashInfo,
};
use crate::ops::{self, PickKind};
use crate::snapshot::{take_snapshot, SnapshotOutcome};
use crate::text::{starts_with, views};
use crate::recent::{after_open, without};
use crate::ops::nothing_staged_text;
use crate::backend::is_object_id;

verus! {

/// The operations that a safety snapshot guards.
#[derive(PartialEq, Eq, Structural, Clone, Copy, Debug)]
pub enum Guarded {
    Amend,
    CherryPick,
    Revert,
    DiscardAll,
}

/// A step of a guarded operation, in the order the session took it.
#[derive(PartialEq, Eq, Structural, Clone, Copy, Debug)]
pub enum Effect {
    /// The snapshot for the operation was taken.
    Snapshot(Guarded, SnapshotOutcome),
    /// The snapshot for the operation could not be taken.
    SnapshotFailed(Guarded),
    /// The operation went on to its destructive step (which may still fail).
    Destroy(Guarded),
}

/// What one guarded operation adds to the journal: its snapshot (whose
/// outcome is kept as `last`) and then its destructive step; or, when the
/// snapshot failed, only that failure and an error (a discard-all goes on to
/// its destructive step even then).
pub open spec fn guarded_run(
    before: Seq<Effect>,
    after: Seq<Effect>,
    op: Guarded,
    last: Option<SnapshotOutcome>,
    ok: bool,
) -> bool {
    ||| (last matches Some(o) && after == before + seq![Effect::Snapshot(op, o), Effect::Destroy(op)])
    ||| (!ok && op != Guarded::DiscardAll && after == before + seq![Effect::SnapshotFailed(op)])
    ||| (op == Guarded::DiscardAll && last is None && after == before + seq![
        Effect::SnapshotFailed(op),
        Effect::Destroy(op),
    ])
}

/// Whether `prev` is a snapshot step that may precede a destructive step of
/// `op`: the snapshot of the same operation, or, for a discard-all only, its
/// failed snapshot.
pub open spec fn guards(prev: Effect, op: Guarded) -> bool {
    match prev {
        Effect::Snapshot(op2, _) => op2 == op,
        Effect::SnapshotFailed(op2) => op2 == op && op == Guarded::DiscardAll,
        Effect::Destroy(_) => false,
    }
}

/// Every destructive step in `j` comes right after the snapshot of the same
/// operation; only a discard-all may follow a snapshot that failed.
pub open spec fn guarded(j: Seq<Effect>) -> bool {
    forall|i: int|
        0 <= i < j.len() ==> match #[trigger] j[i] {
            Effect::Destroy(op) => i > 0 && guards(j[i - 1], op),
            _ => true,
        }
}

/// The last opened repository after `path` is forgotten.
pub open spec fn forgotten(last: Option<String>, path: Seq<char>) -> Option<String> {
    match last {
        Some(p) => if p@ == path {
            None
        } else {
            Some(p)
        },
        None => None,
    }
}

proof fn lemma_first_char(s: Seq<char>, p: Seq<char>)
    requires
        starts_with(s, p),
        p.len() > 0,
    ensures
        s[0] == p[0],
{
    assert(s.subrange(0, p.len() as int)[0] == s[0]);
}

/// The error text of an open whose path does not exist.
pub open spec fn not_found_text() -> Seq<char> {
    "Repository path not found. Removed from list."@
}

/// Whether `e` reports an open whose path does not exist.
pub open spec fn is_not_found(e: AppError) -> bool {
    e matches AppError::Git(s) && s@ == not_found_text()
}

/// Whether `new` is `old` with `path` forgotten: gone from the recent list
/// (order kept) and no longer the last opened repository.
pub open spec fn pruned(old: Settings, new: Settings, path: Seq<char>) -> bool {
    &&& views(new.recent_repositories@) == without(views(old.recent_repositories@), seq![path])
    &&& new.last_opened_repository == forgotten(old.last_opened_repository, path)
}

/// After an open that failed: the path is forgotten when it does not exist,
/// else the settings stay as they are.
pub fn settle_failed_open(settings: &mut Settings, path: &str, exists: bool)
    ensures
        exists ==> *final(settings) == *old(settings),
        !exists ==> pruned(*old(settings), *final(settings), path@),
{
    if !exists {
        let gone = vec![String::from_str(path)];
        assert(views(gone@) =~= seq![path@]);
        settings.forget_repositories(&gone);
        proof {
            match old(settings).last_opened_repository {
                Some(p) => {
                    assert(seq![path@][0] == path@);
                    if p@ == path@ {
                        assert(seq![path@].contains(p@));
                    }
                },
                None => {},
            }
        }
    }
}

/// What was learnt of one path of a repository list.
pub enum PathOutcome {
    /// The repository opened and was summarised.
    Summary(RepositoryInfo),
    /// The path exists but could not be read as a repository.
    Unreadable,
    /// The path does not exist.
    Missing,
}

/// The outcome of one path from what was read of it: whether it opened as a
/// repository, its summary when one could be made, and whether it exists.
pub fn path_outcome(opened: bool, summary: Option<RepositoryInfo>, exists: bool) -> (r: PathOutcome)
    ensures
        opened && summary is Some ==> r == PathOutcome::Summary(summary->0),
        opened && summary is None ==> r is Unreadable,
        !opened && exists ==> r is Unreadable,
        !opened && !exists ==> r is Missing,
{
    if opened {
        match summary {
            Some(info) => PathOutcome::Summary(info),
            None => PathOutcome::Unreadable,
        }
    } else if exists {
        PathOutcome::Unreadable
    } else {
        PathOutcome::Missing
    }
}

/// Whether `r` and the recent list going from `old` to `new` are the report of
/// `paths` with outcomes `o`: one record per path not missing, in order, and
/// the recent list without exactly the missing paths.
pub open spec fn report_from(
    paths: Seq<String>,
    o: Seq<PathOutcome>,
    r: Seq<RepositoryInfo>,
    old: Seq<Seq<char>>,
    new: Seq<Seq<char>>,
) -> bool {
    &&& o.len() == paths.len()
    &&& r.len() == listed(o).len()
    &&& forall|k: int|
        0 <= k < r.len() ==> describes_outcome(#[trigger] r[k], paths[listed(o)[k]], o[listed(o)[k]])
    &&& new == without(old, missing(views(paths), o))
}

/// Whether this is the report of `paths` for some outcome of each path.
pub open spec fn repositories_report(
    paths: Seq<String>,
    r: Seq<RepositoryInfo>,
    old: Seq<Seq<char>>,
    new: Seq<Seq<char>>,
) -> bool {
    exists|o: Seq<PathOutcome>| #[trigger] report_from(paths, o, r, old, new)
}

/// Whether `info` is the record owed for `path` with outcome `o`: the
/// summary itself, or a placeholder on branch `unknown`, clean and level.
pub open spec fn describes_outcome(info: RepositoryInfo, path: String, o: PathOutcome) -> bool {
    match o {
        PathOutcome::Summary(i) => info == i,
        PathOutcome::Unreadable => info.path@ == path@ && info.current_branch@ == "unknown"@
            && !info.is_dirty && info.ahead == 0 && info.behind == 0,
        PathOutcome::Missing => false,
    }
}

/// The positions of the outcomes that are not missing, in order.
pub open spec fn listed(outcomes: Seq<PathOutcome>) -> Seq<int>
    decreases outcomes.len(),
{
    if outcomes.len() == 0 {
        seq![]
    } else if outcomes.last() is Missing {
        listed(outcomes.drop_last())
    } else {
        listed(outcomes.drop_last()).push(outcomes.len() - 1)
    }
}

/// The paths whose outcome is missing, in order.
pub open spec fn missing(paths: Seq<Seq<char>>, outcomes: Seq<PathOutcome>) -> Seq<Seq<char>>
    decreases outcomes.len(),
{
    if outcomes.len() == 0 || paths.len() == 0 {
        seq![]
    } else if outcomes.last() is Missing {
        missing(paths.drop_last(), outcomes.drop_last()).push(paths.last())
    } else {
        missing(paths.drop_last(), outcomes.drop_last())
    }
}

proof fn lemma_listed_bounds(outcomes: Seq<PathOutcome>)
    ensures
        listed(outcomes).len() <= outcomes.len(),
        forall|k: int|
            0 <= k < listed(outcomes).len() ==> 0 <= #[trigger] listed(outcomes)[k] < outcomes.len()
                && !(outcomes[listed(outcomes)[k]] is Missing),
    decreases outcomes.len(),
{
    if outcomes.len() > 0 {
        let init = outcomes.drop_last();
        lemma_listed_bounds(init);
        assert forall|k: int| 0 <= k < listed(outcomes).len() implies 0 <= #[trigger] listed(
            outcomes,
        )[k] < outcomes.len() && !(outcomes[listed(outcomes)[k]] is Missing) by {
            if k < listed(init).len() {
                assert(listed(outcomes)[k] == listed(init)[k]);
                assert(init[listed(init)[k]] == outcomes[listed(init)[k]]);
            }
        }
    }
}

/// The records of a repository list and the paths to forget: one record per
/// path that is not missing, in input order; the missing paths in input order.
pub fn summarize_repositories(paths: &Vec<String>, outcomes: Vec<PathOutcome>) -> (r: (
    Vec<RepositoryInfo>,
    Vec<String>,
))
    requires
        paths@.len() == outcomes@.len(),
    ensures
        r.0@.len() == listed(outcomes@).len(),
        forall|k: int|
            0 <= k < r.0@.len() ==> describes_outcome(
                #[trigger] r.0@[k],
                paths@[listed(outcomes@)[k]],
                outcomes@[listed(outcomes@)[k]],
            ),
        views(r.1@) == missing(views(paths@), outcomes@),
{
    let mut results: Vec<RepositoryInfo> = Vec::new();
    let mut gone: Vec<String> = Vec::new();
    let mut i: usize = 0;
    while i < outcomes.len()
        invariant
            i <= outcomes@.len(),
            paths@.len() == outcomes@.len(),
            results@.len() == listed(outcomes@.subrange(0, i as int)).len(),
            forall|k: int|
                0 <= k < results@.len() ==> describes_outcome(
                    #[trigger] results@[k],
                    paths@[listed(outcomes@.subrange(0, i as int))[k]],
                    outcomes@[listed(outcomes@.subrange(0, i as int))[k]],
                ),
            views(gone@) == missing(views(paths@).subrange(0, i as int), outcomes@.subrange(0, i as int)),
        decreases outcomes@.len() - i,
    {
        let ghost pre = outcomes@.subrange(0, i as int);
        let ghost cur = outcomes@.subrange(0, i + 1);
        proof {
            assert(cur.drop_last() =~= pre);
            assert(views(paths@).subrange(0, i + 1).drop_last() =~= views(paths@).subrange(0, i as int));
            lemma_listed_bounds(pre);
            assert forall|k: int| 0 <= k < listed(pre).len() implies pre[listed(pre)[k]] == outcomes@[listed(pre)[k]] by {}
        }
        match &outcomes[i] {
            PathOutcome::Summary(info) => {
                let copy = RepositoryInfo {
                    path: info.path.clone(),
                    current_branch: info.current_branch.clone(),
                    is_dirty: info.is_dirty,
                    ahead: info.ahead,
                    behind: info.behind,
                };
                results.push(copy);
                assert(listed(cur) == listed(pre).push(i as int));
            },
            PathOutcome::Unreadable => {
                results.push(
                    RepositoryInfo {
                        path: paths[i].clone(),
                        current_branch: String::from_str("unknown"),
                        is_dirty: false,
                        ahead: 0,
                        behind: 0,
                    },
                );
                assert(listed(cur) == listed(pre).push(i as int));
            },
            PathOutcome::Missing => {
                gone.push(paths[i].clone());
                assert(views(gone@) =~= missing(views(paths@).subrange(0, i + 1), cur));
            },
        }
        i = i + 1;
    }
    assert(outcomes@.subrange(0, outcomes@.len() as int) =~= outcomes@);
    assert(views(paths@).subrange(0, paths@.len() as int) =~= views(paths@));
    (results, gone)
}

/// The error of a command that needs an open repository when there is none.
pub open spec fn is_no_repository(e: AppError) -> bool {
    e matches AppError::Precondition(s) && s@ == "No repository open"@
}

/// The session state.
pub struct Session {
    /// The open repository, if any.
    pub repo: Option<git2::Repository>,
    /// The settings document.
    pub settings: Settings,
    /// The guarded steps taken so far.
    pub journal: Ghost<Seq<Effect>>,
    /// What the snapshot of the latest guarded operation did, for the caller
    /// to warn on when HEAD could not be read.
    pub last_snapshot: Option<SnapshotOutcome>,
    /// Which repository handle is live: it changes each time one is opened, so
    /// that a notification from a superseded watcher can be told apart.
    pub generation: u64,
}

/// The generation that follows `g`.
pub open spec fn next_generation(g: u64) -> u64 {
    if g < u64::MAX {
        (g + 1) as u64
    } else {
        0
    }
}

fn no_repository() -> (r: AppError)
    ensures
        is_no_repository(r),
{
    AppError::Precondition(String::from_str("No repository open"))
}

proof fn lemma_guarded_extend(j: Seq<Effect>, tail: Seq<Effect>)
    requires
        guarded(j),
        guarded(tail),
        tail.len() > 0 ==> !(tail[0] is Destroy),
    ensures
        guarded(j + tail),
        (j + tail).subrange(0, j.len() as int) == j,
{
    let all = j + tail;
    assert forall|i: int| 0 <= i < all.len() implies match #[trigger] all[i] {
        Effect::Destroy(op) => i > 0 && guards(all[i - 1], op),
        _ => true,
    } by {
        if i >= j.len() {
            let k = i - j.len();
            assert(tail[k] == all[i]);
            if k > 0 {
                assert(tail[k - 1] == all[i - 1]);
            }
        } else {
            assert(j[i] == all[i]);
            if i > 0 {
                assert(j[i - 1] == all[i - 1]);
            }
        }
    }
    assert(all.subrange(0, j.len() as int) =~= j);
}

proof fn lemma_pair_guarded(first: Effect, op: Guarded)
    requires
        guards(first, op),
    ensures
        guarded(seq![first, Effect::Destroy(op)]),
{
    let t = seq![first, Effect::Destroy(op)];
    assert forall|i: int| 0 <= i < t.len() implies match #[trigger] t[i] {
        Effect::Destroy(op) => i > 0 && guards(t[i - 1], op),
        _ => true,
    } by {
        if i == 1 {
            assert(t[0] == first);
        }
    }
}

impl Session {
    /// A session with no repository open.
    pub fn new(settings: Settings) -> (r: Session)
        ensures
            r.repo is None,
            r.settings == settings,
            r.journal@.len() == 0,
    {
        Session {
            repo: None,
            settings,
            journal: Ghost(Seq::empty()),
            last_snapshot: None,
            generation: 0,
        }
    }

    /// Whether the journal shows every destructive step right after its snapshot.
    pub open spec fn well_guarded(&self) -> bool {
        guarded(self.journal@)
    }

    /// Opens the repository at `path`, replacing the open one, and records it
    /// as the most recent. When it cannot be opened and `path` does not exist,
    /// the path leaves the recent list. The summary of the opened repository
    /// is returned.
    pub fn open_repository(&mut self, path: &str) -> (r: Result<RepositoryInfo, AppError>)
        ensures
            r is Ok ==> final(self).repo is Some,
            r is Ok ==> views(final(self).settings.recent_repositories@) == after_open(
                views(old(self).settings.recent_repositories@),
                path@,
            ),
            r is Ok ==> (final(self).settings.last_opened_repository matches Some(p) && p@
                == path@),
            r is Ok ==> final(self).generation == next_generation(old(self).generation),
            r is Err ==> final(self).repo == old(self).repo,
            r is Err ==> final(self).generation == old(self).generation,
            r is Err ==> (if is_not_found(r->Err_0) {
                pruned(old(self).settings, final(self).settings, path@)
            } else {
                final(self).settings == old(self).settings
            }),
            final(self).journal == old(self).journal,
    {
        match ops::open_repository(path) {
            Ok(repo) => {
                let info = match crate::info::get_repository_info(&repo) {
                    Ok(i) => i,
                    Err(e) => {
                        proof {
                            reveal_strlit("Repository path not found. Removed from list.");
                            reveal_strlit("Failed to get statuses");
                            if e is Git && e->Git_0@ == not_found_text() {
                                lemma_first_char(e->Git_0@, "Failed to get statuses"@ + ": "@);
                                assert(("Failed to get statuses"@ + ": "@)[0] == "Failed to get statuses"@[0]);
                            }
                        }
                        return Err(e);
                    },
                };
                self.repo = Some(repo);
                self.generation = if self.generation < u64::MAX {
                    self.generation + 1
                } else {
                    0
                };
                self.settings.remember_opened(path);
                Ok(info)
            },
            Err(e) => {
                let exists = path_exists(path);
                settle_failed_open(&mut self.settings, path, exists);
                if !exists {
                    return Err(AppError::Git(String::from_str("Repository path not found. Removed from list.")));
                }
                proof {
                    reveal_strlit("Repository path not found. Removed from list.");
                    reveal_strlit("Failed to open repository");
                    if e is Git && e->Git_0@ == not_found_text() {
                        lemma_first_char(e->Git_0@, "Failed to open repository"@ + ": "@);
                                assert(("Failed to open repository"@ + ": "@)[0] == "Failed to open repository"@[0]);
                    }
                }
                Err(e)
            },
        }
    }

    /// Whether a change notification from the watcher started for handle
    /// `generation` is to be acted on: only while that handle is the live one.
    pub fn accepts_notification(&self, generation: u64) -> (r: bool)
        ensures
            r == (self.repo is Some && generation == self.generation),
    {
        self.repo.is_some() && generation == self.generation
    }

    /// The summary of each path: a repository that opens gives its own summary;
    /// a path that does not exist leaves the recent list and the result; any
    /// other path gives a placeholder summary (see `summarize_repositories`).
    pub fn get_repositories_info(&mut self, paths: Vec<String>) -> (r: Vec<RepositoryInfo>)
        ensures
            r@.len() <= paths@.len(),
            repositories_report(
                paths@,
                r@,
                views(old(self).settings.recent_repositories@),
                views(final(self).settings.recent_repositories@),
            ),
            final(self).repo == old(self).repo,
            final(self).journal == old(self).journal,
    {
        let mut outcomes: Vec<PathOutcome> = Vec::new();
        let mut i: usize = 0;
        while i < paths.len()
            invariant
                i <= paths@.len(),
                outcomes@.len() == i,
            decreases paths@.len() - i,
        {
            let path = &paths[i];
            let outcome = match ops::open_repository(path.as_str()) {
                Ok(repo) => match crate::info::get_repository_info(&repo) {
                    Ok(info) => path_outcome(true, Some(info), true),
                    Err(_) => path_outcome(true, None, true),
                },
                Err(_) => path_outcome(false, None, path_exists(path.as_str())),
            };
            outcomes.push(outcome);
            i = i + 1;
        }
        let ghost o = outcomes@;
        let ghost before = views(self.settings.recent_repositories@);
        let (results, gone) = summarize_repositories(&paths, outcomes);
        proof {
            lemma_listed_bounds(o);
        }
        self.settings.forget_repositories(&gone);
        proof {
            assert(report_from(paths@, o, results@, before, views(self.settings.recent_repositories@)));
        }
        results
    }

    /// The summary of the open repository, if one is open.
    pub fn get_current_repo_info(&self) -> (r: Result<Option<RepositoryInfo>, AppError>)
        ensures
            self.repo is None ==> r matches Ok(None),
    {
        match &self.repo {
            Some(repo) => match crate::info::get_repository_info(repo) {
                Ok(info) => Ok(Some(info)),
                Err(e) => Err(e),
            },
            None => Ok(None),
        }
    }

    /// The settings document.
    pub fn get_settings(&self) -> (r: &Settings)
        ensures
            *r == self.settings,
    {
        &self.settings
    }

    /// Replaces the settings document.
    pub fn save_settings(&mut self, settings: Settings)
        ensures
            final(self).settings == settings,
            final(self).repo == old(self).repo,
            final(self).journal == old(self).journal,
    {
        self.settings = settings;
    }

    /// The status of every changed path.
    pub fn get_repository_status(&self) -> (r: Result<Vec<FileStatus>, AppError>)
        ensures
            self.repo is None ==> (r matches Err(e) && is_no_repository(e)),
    {
        match &self.repo {
            Some(repo) => crate::status::get_status(repo),
            None => Err(no_repository()),
        }
    }

    /// Commits the index after a stage request that produced `staged`: when
    /// nothing was staged and there were warnings, nothing is committed and the
    /// request fails as a precondition listing the warnings.
    pub fn commit_staged(&self, staged: &StageResult, message: &str) -> (r: Result<String, AppError>)
        ensures
            self.repo is None ==> (r matches Err(e) && is_no_repository(e)),
            self.repo is Some && staged.staged@.len() == 0 && staged.warnings@.len() > 0 ==> (
            r matches Err(AppError::Precondition(s)) && s@ == nothing_staged_text(
                staged.warnings@,
            )),
            r matches Ok(id) ==> is_object_id(id@),
    {
        let repo = match &self.repo {
            Some(repo) => repo,
            None => return Err(no_repository()),
        };
        if let Err(e) = ops::require_staged(staged) {
            return Err(e);
        }
        ops::create_commit(repo, message)
    }

    /// Stages the options' files and commits them with its message (see
    /// `ops::stage_files` and `commit_staged`).
    pub fn create_commit(&self, options: CommitOptions) -> (r: Result<String, AppError>)
        ensures
            self.repo is None ==> (r matches Err(e) && is_no_repository(e)),
            r matches Ok(id) ==> is_object_id(id@),
    {
        let repo = match &self.repo {
            Some(repo) => repo,
            None => return Err(no_repository()),
        };
        let staged = match ops::stage_files(repo, options.files) {
            Ok(s) => s,
            Err(e) => return Err(e),
        };
        self.commit_staged(&staged, options.message.as_str())
    }

    /// Stages `files` (see `ops::stage_files`). When nothing could be staged
    /// and there were warnings, the request fails as a precondition, with the
    /// warnings in its text (see `ops::require_staged`).
    pub fn stage_files(&self, files: Vec<String>) -> (r: Result<StageResult, AppError>)
        ensures
            self.repo is None ==> (r matches Err(e) && is_no_repository(e)),
            r matches Ok(res) ==> res.staged@.len() + res.warnings@.len() == files@.len(),
            r matches Ok(res) ==> !(res.staged@.len() == 0 && res.warnings@.len() > 0),
            r matches Ok(res) ==> ops::split_of_request(files@, res),
    {
        let repo = match &self.repo {
            Some(repo) => repo,
            None => return Err(no_repository()),
        };
        let result = match ops::stage_files(repo, files) {
            Ok(res) => res,
            Err(e) => return Err(e),
        };
        match ops::require_staged(&result) {
            Ok(()) => Ok(result),
            Err(e) => Err(e),
        }
    }

    /// Unstages `files` (see `ops::unstage_files`).
    pub fn unstage_files(&self, files: Vec<String>) -> (r: Result<(), AppError>)
        ensures
            self.repo is None ==> (r matches Err(e) && is_no_repository(e)),
    {
        match &self.repo {
            Some(repo) => ops::unstage_files(repo, files),
            None => Err(no_repository()),
        }
    }

    /// Discards the changes of one path (see `ops::discard_changes`).
    pub fn discard_changes(&self, file_path: &str) -> (r: Result<Option<String>, AppError>)
        ensures
            self.repo is None ==> (r matches Err(e) && is_no_repository(e)),
    {
        match &self.repo {
            Some(repo) => ops::discard_changes(repo, file_path),
            None => Err(no_repository()),
        }
    }

    /// The local branches.
    pub fn get_branches(&self) -> (r: Result<Vec<BranchInfo>, AppError>)
        ensures
            self.repo is None ==> (r matches Err(e) && is_no_repository(e)),
    {
        match &self.repo {
            Some(repo) => ops::get_branches(repo),
            None => Err(no_repository()),
        }
    }

    /// Creates and checks out a branch (see `ops::create_branch`).
    pub fn create_branch(&self, name: &str) -> (r: Result<(), AppError>)
        ensures
            self.repo is None ==> (r matches Err(e) && is_no_repository(e)),
    {
        match &self.repo {
            Some(repo) => ops::create_branch(repo, name),
            None => Err(no_repository()),
        }
    }

    /// Checks out a branch (see `ops::checkout_branch`).
    pub fn checkout_branch(&self, name: &str) -> (r: Result<(), AppError>)
        ensures
            self.repo is None ==> (r matches Err(e) && is_no_repository(e)),
    {
        match &self.repo {
            Some(repo) => ops::checkout_branch(repo, name),
            None => Err(no_repository()),
        }
    }

    /// The patch of one commit.
    pub fn get_commit_diff(&self, sha: &str) -> (r: Result<Vec<DiffInfo>, AppError>)
        ensures
            self.repo is None ==> (r matches Err(e) && is_no_repository(e)),
    {
        match &self.repo {
            Some(repo) => crate::diff::get_commit_diff(repo, sha),
            None => Err(no_repository()),
        }
    }

    /// Up to `limit` commits of the history.
    pub fn get_commit_history(&self, limit: usize) -> (r: Result<Vec<CommitInfo>, AppError>)
        ensures
            self.repo is None ==> (r matches Err(e) && is_no_repository(e)),
            r matches Ok(v) ==> v@.len() <= limit,
    {
        match &self.repo {
            Some(repo) => crate::history::get_commit_history(repo, limit),
            None => Err(no_repository()),
        }
    }

    /// The uncommitted changes, of one path when given.
    pub fn get_diff(&self, file_path: Option<&str>) -> (r: Result<Vec<DiffInfo>, AppError>)
        ensures
            self.repo is None ==> (r matches Err(e) && is_no_repository(e)),
    {
        match &self.repo {
            Some(repo) => crate::diff::get_diff(repo, file_path),
            None => Err(no_repository()),
        }
    }

    /// Stashes the changes, untracked files included.
    pub fn stash_save(&mut self, message: Option<&str>) -> (r: Result<(), AppError>)
        ensures
            old(self).repo is None ==> (r matches Err(e) && is_no_repository(e)),
            final(self).journal == old(self).journal,
    {
        match &mut self.repo {
            Some(repo) => ops::stash_save(repo, message),
            None => Err(no_repository()),
        }
    }

    /// Applies and drops stash entry `index`.
    pub fn stash_pop(&mut self, index: usize) -> (r: Result<(), AppError>)
        ensures
            old(self).repo is None ==> (r matches Err(e) && is_no_repository(e)),
            final(self).journal == old(self).journal,
    {
        match &mut self.repo {
            Some(repo) => ops::stash_pop(repo, index),
            None => Err(no_repository()),
        }
    }

    /// The stash entries, most recent first.
    pub fn list_stashes(&mut self) -> (r: Result<Vec<StashInfo>, AppError>)
        ensures
            old(self).repo is None ==> (r matches Err(e) && is_no_repository(e)),
            final(self).journal == old(self).journal,
    {
        match &mut self.repo {
            Some(repo) => ops::stash_list(repo),
            None => Err(no_repository()),
        }
    }

    /// The unresolved conflicts.
    pub fn get_conflicts(&self) -> (r: Result<Vec<ConflictInfo>, AppError>)
        ensures
            self.repo is None ==> (r matches Err(e) && is_no_repository(e)),
    {
        match &self.repo {
            Some(repo) => ops::get_conflicts(repo),
            None => Err(no_repository()),
        }
    }

    /// Marks one conflicted path resolved (see `ops::resolve_conflict`).
    pub fn resolve_conflict(&self, path: &str, use_ours: bool) -> (r: Result<(), AppError>)
        ensures
            self.repo is None ==> (r matches Err(e) && is_no_repository(e)),
    {
        match &self.repo {
            Some(repo) => ops::resolve_conflict(repo, path, use_ours),
            None => Err(no_repository()),
        }
    }

    /// Sets the URL of a remote.
    pub fn set_remote_url(&self, name: &str, url: &str) -> (r: Result<(), AppError>)
        ensures
            self.repo is None ==> (r matches Err(e) && is_no_repository(e)),
    {
        match &self.repo {
            Some(repo) => ops::set_remote_url(repo, name, url),
            None => Err(no_repository()),
        }
    }

    /// The URL of a remote.
    pub fn get_remote_url(&self, name: &str) -> (r: Result<String, AppError>)
        ensures
            self.repo is None ==> (r matches Err(e) && is_no_repository(e)),
    {
        match &self.repo {
            Some(repo) => ops::get_remote_url(repo, name),
            None => Err(no_repository()),
        }
    }

    /// Amends the tip commit after a safety snapshot; nothing is amended when
    /// the snapshot fails.
    pub fn amend_commit(&mut self, message: &str) -> (r: Result<String, AppError>)
        requires
            old(self).well_guarded(),
        ensures
            final(self).well_guarded(),
            old(self).repo is None ==> (r matches Err(e) && is_no_repository(e)),
            final(self).journal@.subrange(0, old(self).journal@.len() as int)
                == old(self).journal@,
            final(self).repo == old(self).repo,
            old(self).repo is None ==> final(self).journal == old(self).journal,
            old(self).repo is Some ==> guarded_run(
                old(self).journal@,
                final(self).journal@,
                Guarded::Amend,
                final(self).last_snapshot,
                r is Ok,
            ),
    {
        let repo = match &self.repo {
            Some(repo) => repo,
            None => {
                assert(self.journal@.subrange(0, self.journal@.len() as int) =~= self.journal@);
                return Err(no_repository());
            },
        };
        match take_snapshot(repo, "amend") {
            Ok(o) => {
                self.last_snapshot = Some(o);
                proof {
                    let tail = seq![Effect::Snapshot(Guarded::Amend, o), Effect::Destroy(Guarded::Amend)];
                    lemma_pair_guarded(Effect::Snapshot(Guarded::Amend, o), Guarded::Amend);
                    lemma_guarded_extend(self.journal@, tail);
                }
                self.journal = Ghost(self.journal@ + seq![Effect::Snapshot(Guarded::Amend, o), Effect::Destroy(Guarded::Amend)]);
                ops::amend_head(repo, message)
            },
            Err(e) => {
                proof {
                    let tail = seq![Effect::SnapshotFailed(Guarded::Amend)];
                    assert(guarded(tail));
                    lemma_guarded_extend(self.journal@, tail);
                }
                self.journal = Ghost(self.journal@ + seq![Effect::SnapshotFailed(Guarded::Amend)]);
                Err(e)
            },
        }
    }

    fn pick(&mut self, sha: &str, kind: PickKind, op: Guarded) -> (r: Result<(), AppError>)
        requires
            old(self).well_guarded(),
            op != Guarded::DiscardAll,
        ensures
            final(self).well_guarded(),
            old(self).repo is None ==> (r matches Err(e) && is_no_repository(e)),
            final(self).journal@.subrange(0, old(self).journal@.len() as int)
                == old(self).journal@,
            final(self).repo == old(self).repo,
            old(self).repo is None ==> final(self).journal == old(self).journal,
            old(self).repo is Some ==> guarded_run(
                old(self).journal@,
                final(self).journal@,
                op,
                final(self).last_snapshot,
                r is Ok,
            ),
    {
        let repo = match &self.repo {
            Some(repo) => repo,
            None => {
                assert(self.journal@.subrange(0, self.journal@.len() as int) =~= self.journal@);
                return Err(no_repository());
            },
        };
        match take_snapshot(repo, ops::pick_label_text(kind)) {
            Ok(o) => {
                self.last_snapshot = Some(o);
                proof {
                    let tail = seq![Effect::Snapshot(op, o), Effect::Destroy(op)];
                    lemma_pair_guarded(Effect::Snapshot(op, o), op);
                    lemma_guarded_extend(self.journal@, tail);
                }
                self.journal = Ghost(self.journal@ + seq![Effect::Snapshot(op, o), Effect::Destroy(op)]);
                match ops::pick_unguarded(repo, sha, kind) {
                    Ok(_) => Ok(()),
                    Err(e) => Err(e),
                }
            },
            Err(e) => {
                proof {
                    let tail = seq![Effect::SnapshotFailed(op)];
                    assert(guarded(tail));
                    lemma_guarded_extend(self.journal@, tail);
                }
                self.journal = Ghost(self.journal@ + seq![Effect::SnapshotFailed(op)]);
                Err(e)
            },
        }
    }

    /// Cherry-picks a commit after a safety snapshot; nothing is applied when
    /// the snapshot fails. Conflicts are reported as `AppError::Conflict`.
    pub fn cherry_pick(&mut self, sha: &str) -> (r: Result<(), AppError>)
        requires
            old(self).well_guarded(),
        ensures
            final(self).well_guarded(),
            old(self).repo is None ==> (r matches Err(e) && is_no_repository(e)),
            final(self).journal@.subrange(0, old(self).journal@.len() as int)
                == old(self).journal@,
            final(self).repo == old(self).repo,
            old(self).repo is None ==> final(self).journal == old(self).journal,
            old(self).repo is Some ==> guarded_run(
                old(self).journal@,
                final(self).journal@,
                Guarded::CherryPick,
                final(self).last_snapshot,
                r is Ok,
            ),
    {
        self.pick(sha, PickKind::CherryPick, Guarded::CherryPick)
    }

    /// Reverts a commit after a safety snapshot; nothing is applied when the
    /// snapshot fails. Conflicts are reported as `AppError::Conflict`.
    pub fn revert_commit(&mut self, sha: &str) -> (r: Result<(), AppError>)
        requires
            old(self).well_guarded(),
        ensures
            final(self).well_guarded(),
            old(self).repo is None ==> (r matches Err(e) && is_no_repository(e)),
            final(self).journal@.subrange(0, old(self).journal@.len() as int)
                == old(self).journal@,
            final(self).repo == old(self).repo,
            old(self).repo is None ==> final(self).journal == old(self).journal,
            old(self).repo is Some ==> guarded_run(
                old(self).journal@,
                final(self).journal@,
                Guarded::Revert,
                final(self).last_snapshot,
                r is Ok,
            ),
    {
        self.pick(sha, PickKind::Revert, Guarded::Revert)
    }

    /// Forces the working tree back to HEAD after a safety snapshot; a failed
    /// snapshot is recorded and does not stop the discard.
    pub fn discard_all_changes(&mut self) -> (r: Result<(), AppError>)
        requires
            old(self).well_guarded(),
        ensures
            final(self).well_guarded(),
            old(self).repo is None ==> (r matches Err(e) && is_no_repository(e)),
            final(self).journal@.subrange(0, old(self).journal@.len() as int)
                == old(self).journal@,
            final(self).repo == old(self).repo,
            old(self).repo is None ==> final(self).journal == old(self).journal,
            old(self).repo is Some ==> guarded_run(
                old(self).journal@,
                final(self).journal@,
                Guarded::DiscardAll,
                final(self).last_snapshot,
                r is Ok,
            ),
    {
        let repo = match &self.repo {
            Some(repo) => repo,
            None => {
                assert(self.journal@.subrange(0, self.journal@.len() as int) =~= self.journal@);
                return Err(no_repository());
            },
        };
        let outcome = take_snapshot(repo, "discard-all");
        let first = match outcome {
            Ok(o) => Effect::Snapshot(Guarded::DiscardAll, o),
            Err(_) => Effect::SnapshotFailed(Guarded::DiscardAll),
        };
        self.last_snapshot = match outcome {
            Ok(o) => Some(o),
            Err(_) => None,
        };
        proof {
            let tail = seq![first, Effect::Destroy(Guarded::DiscardAll)];
            lemma_pair_guarded(first, Guarded::DiscardAll);
            lemma_guarded_extend(self.journal@, tail);
        }
        self.journal = Ghost(self.journal@ + seq![first, Effect::Destroy(Guarded::DiscardAll)]);
        ops::discard_all_unguarded(repo)
    }
}

} // verus!
