//! The mutating operation set over an open repository: stage, unstage,
//! discard, commit, amend, cherry-pick, revert, branches, stash, conflicts,
//! remotes and the fast-forward step of a pull.

use vstd::prelude::*;
use vstd::string::*;
use crate::backend::{
    amend_commit, apply_cherrypick, apply_revert, checkout_commit_tree, checkout_head_forced,
    cleanup_state, commit_facts, configured_signature, create_branch_at, find_commit, find_ref,
    find_tree, head_ref, index_add, index_conflicts, index_remove,
    index_write, index_write_tree, join_path, local_branch_names, merge_analysis, no_nul,
    annotated_commit, find_remote, oid_text, open_index, open_repo, parse_oid, path_exists, pop_stash, remote_url,
    reset_paths, save_stash, set_head, signature_now, stash_entries, workdir, write_commit,
    write_reference, joined_path, is_hex, is_object_id, ConflictStages, MergeFacts, StashEntry,
};
use crate::error::AppError;
use crate::models::{BranchInfo, ConflictInfo, StageResult, StashInfo};
use crate::snapshot::take_snapshot;
use crate::text::{backend_error, concat2, concat3, joined, precondition, starts_with, views};
use crate::validate::{is_safe_git_arg, safe_arg};

verus! {

/// Opens the repository at `path`.
pub fn open_repository(path: &str) -> (r: Result<git2::Repository, AppError>)
    ensures
        r matches Err(e) ==> (e matches AppError::Git(s) && starts_with(
            s@,
            "Failed to open repository"@ + ": "@,
        )),
{
    match open_repo(path) {
        Ok(repo) => Ok(repo),
        Err(e) => Err(backend_error("Failed to open repository", &e)),
    }
}

/// Remote transports take their credentials from the settings (see
/// `remote::ssh_command`), so there are no callbacks to set up.
pub fn create_remote_callbacks() {
}

/// The commit HEAD points at.
pub fn head_commit(repo: &git2::Repository) -> (r: Result<git2::Commit<'_>, AppError>)
    ensures
        r matches Err(e) ==> e is Git,
{
    let head = match head_ref(repo) {
        Ok(h) => h,
        Err(e) => return Err(backend_error("Failed to get HEAD", &e)),
    };
    match head.target {
        Some(t) => match find_commit(repo, t) {
            Ok(c) => Ok(c),
            Err(e) => Err(backend_error("Failed to peel HEAD to commit", &e)),
        },
        None => Err(AppError::Git(String::from_str("HEAD does not point at a commit"))),
    }
}

/// The identity to commit with: `configured` when the repository has one,
/// else `placeholder`; an error only when neither could be made.
pub fn choose_identity(
    configured: Result<git2::Signature<'static>, git2::Error>,
    placeholder: Result<git2::Signature<'static>, git2::Error>,
) -> (r: Result<git2::Signature<'static>, AppError>)
    ensures
        configured matches Ok(s) ==> r == Ok::<git2::Signature<'static>, AppError>(s),
        configured is Err ==> (placeholder matches Ok(p) ==> r == Ok::<
            git2::Signature<'static>,
            AppError,
        >(p)),
        configured is Err ==> (placeholder is Err ==> (r matches Err(e) && e is Git)),
{
    match configured {
        Ok(s) => Ok(s),
        Err(_) => match placeholder {
            Ok(p) => Ok(p),
            Err(e) => Err(backend_error("Failed to create signature", &e)),
        },
    }
}

/// The identity to commit with: the repository's configured one, else the
/// placeholder `User <user@example.com>` (see `choose_identity`).
pub fn identity(repo: &git2::Repository) -> (r: Result<git2::Signature<'static>, AppError>)
    ensures
        r matches Err(e) ==> e is Git,
{
    let configured = configured_signature(repo);
    let placeholder = signature_now("User", "user@example.com");
    choose_identity(configured, placeholder)
}

/// The parent of a new commit: the HEAD commit when there is one, none for
/// the first commit.
pub fn choose_parent<'a>(head: Result<git2::Commit<'a>, AppError>) -> (r: Option<git2::Commit<'a>>)
    ensures
        head matches Ok(c) ==> r == Some(c),
        head is Err ==> r is None,
{
    match head {
        Ok(c) => Some(c),
        Err(_) => None,
    }
}

/// Writes the current index as a tree and looks the tree up.
fn index_tree(repo: &git2::Repository) -> (r: Result<git2::Tree<'_>, AppError>)
    ensures
        r matches Err(e) ==> e is Git,
{
    let mut index = match open_index(repo) {
        Ok(i) => i,
        Err(e) => return Err(backend_error("Failed to get index", &e)),
    };
    let tree_id = match index_write_tree(&mut index) {
        Ok(t) => t,
        Err(e) => return Err(backend_error("Failed to write tree", &e)),
    };
    match find_tree(repo, tree_id) {
        Ok(t) => Ok(t),
        Err(e) => Err(backend_error("Failed to find tree", &e)),
    }
}

/// The warning for a path that could not be added to the index.
pub open spec fn failed_warning(path: Seq<char>, reason: Seq<char>) -> Seq<char> {
    "Failed to stage '"@ + path + "': "@ + reason
}

/// The warning for a path missing from disk, removed from the index instead.
pub open spec fn skipped_warning(path: Seq<char>) -> Seq<char> {
    "Skipped '"@ + path + "': file not found (removed from index)"@
}

/// What staging one path came to.
pub enum AddOutcome {
    /// The path exists on disk and the index took it.
    Added,
    /// The path exists on disk but the index refused it, for this reason.
    Refused(String),
    /// The path is missing from disk; it was removed from the index instead.
    Missing,
}

/// The warning a path gets for its outcome (an added path gets none).
pub open spec fn warning_for(path: Seq<char>, o: AddOutcome) -> Seq<char> {
    match o {
        AddOutcome::Refused(reason) => failed_warning(path, reason@),
        _ => skipped_warning(path),
    }
}

/// The paths among the first `n` whose outcome is `Added`, in order.
pub open spec fn added_paths(paths: Seq<String>, outcomes: Seq<AddOutcome>, n: nat) -> Seq<Seq<char>>
    decreases n,
{
    if n == 0 {
        seq![]
    } else {
        let before = added_paths(paths, outcomes, (n - 1) as nat);
        if outcomes[n - 1] is Added {
            before.push(paths[n - 1]@)
        } else {
            before
        }
    }
}

/// One warning for each of the first `n` paths not added, in order.
pub open spec fn stage_warnings(paths: Seq<String>, outcomes: Seq<AddOutcome>, n: nat) -> Seq<Seq<char>>
    decreases n,
{
    if n == 0 {
        seq![]
    } else {
        let before = stage_warnings(paths, outcomes, (n - 1) as nat);
        if outcomes[n - 1] is Added {
            before
        } else {
            before.push(warning_for(paths[n - 1]@, outcomes[n - 1]))
        }
    }
}

/// Whether `res` is the stage result of `paths` with these outcomes: staged
/// exactly the added paths, and one warning per other path, both in order.
pub open spec fn stage_split(paths: Seq<String>, outcomes: Seq<AddOutcome>, res: StageResult) -> bool {
    &&& outcomes.len() == paths.len()
    &&& views(res.staged@) == added_paths(paths, outcomes, paths.len())
    &&& views(res.warnings@) == stage_warnings(paths, outcomes, paths.len())
}

/// Whether `res` is the stage result of `paths` for some outcome of each path.
pub open spec fn split_of_request(paths: Seq<String>, res: StageResult) -> bool {
    exists|outcomes: Seq<AddOutcome>| #[trigger] stage_split(paths, outcomes, res)
}

/// Every path is staged or warned about, never both.
pub proof fn lemma_stage_counts(paths: Seq<String>, outcomes: Seq<AddOutcome>, n: nat)
    requires
        n <= paths.len(),
        n <= outcomes.len(),
    ensures
        added_paths(paths, outcomes, n).len() + stage_warnings(paths, outcomes, n).len() == n,
        (forall|i: int| 0 <= i < n ==> #[trigger] outcomes[i] is Missing) ==> added_paths(
            paths,
            outcomes,
            n,
        ).len() == 0,
    decreases n,
{
    if n > 0 {
        lemma_stage_counts(paths, outcomes, (n - 1) as nat);
    }
}

/// A request whose every path is missing from disk stages nothing and warns
/// about each path, so the commit gate refuses it.
pub proof fn lemma_only_missing_is_refused(paths: Seq<String>, outcomes: Seq<AddOutcome>, res: StageResult)
    requires
        stage_split(paths, outcomes, res),
        paths.len() > 0,
        forall|i: int| 0 <= i < outcomes.len() ==> #[trigger] outcomes[i] is Missing,
    ensures
        res.staged@.len() == 0,
        res.warnings@.len() == paths.len(),
{
    lemma_stage_counts(paths, outcomes, paths.len());
}

/// The stage result of `paths` with these outcomes (see `stage_split`).
pub fn partition_stage(paths: &Vec<String>, outcomes: &Vec<AddOutcome>) -> (r: StageResult)
    requires
        outcomes@.len() == paths@.len(),
    ensures
        stage_split(paths@, outcomes@, r),
{
    let mut staged: Vec<String> = Vec::new();
    let mut warnings: Vec<String> = Vec::new();
    let mut i: usize = 0;
    while i < paths.len()
        invariant
            i <= paths@.len(),
            outcomes@.len() == paths@.len(),
            views(staged@) == added_paths(paths@, outcomes@, i as nat),
            views(warnings@) == stage_warnings(paths@, outcomes@, i as nat),
        decreases paths@.len() - i,
    {
        let path = &paths[i];
        match &outcomes[i] {
            AddOutcome::Added => {
                staged.push(path.clone());
            },
            AddOutcome::Refused(reason) => {
                let w = concat3("Failed to stage '", path.as_str(), "': ").concat(reason.as_str());
                warnings.push(w);
            },
            AddOutcome::Missing => {
                warnings.push(
                    concat3("Skipped '", path.as_str(), "': file not found (removed from index)"),
                );
            },
        }
        assert(views(staged@) =~= added_paths(paths@, outcomes@, (i + 1) as nat));
        assert(views(warnings@) =~= stage_warnings(paths@, outcomes@, (i + 1) as nat));
        i = i + 1;
    }
    StageResult { staged, warnings }
}

/// Stages each path that exists on disk; a path missing from disk is removed
/// from the index instead and warned about, as is a path the index refuses.
/// The split is decided by `partition_stage` from each path's outcome.
pub fn stage_files(repo: &git2::Repository, paths: Vec<String>) -> (r: Result<
    StageResult,
    AppError,
>)
    ensures
        r matches Ok(res) ==> res.staged@.len() + res.warnings@.len() == paths@.len(),
        r matches Ok(res) ==> split_of_request(paths@, res),
{
    let mut index = match open_index(repo) {
        Ok(i) => i,
        Err(e) => return Err(backend_error("Failed to get index", &e)),
    };
    let dir = match workdir(repo) {
        Some(d) => d,
        None => return Err(AppError::Git(String::from_str("No working directory found"))),
    };
    let mut outcomes: Vec<AddOutcome> = Vec::new();
    let mut i: usize = 0;
    while i < paths.len()
        invariant
            i <= paths@.len(),
            outcomes@.len() == i,
        decreases paths@.len() - i,
    {
        let path = &paths[i];
        let full = join_path(dir.as_str(), path.as_str());
        let outcome = if path_exists(full.as_str()) {
            match index_add(&mut index, path.as_str()) {
                Ok(()) => AddOutcome::Added,
                Err(e) => AddOutcome::Refused(crate::backend::error_text(&e)),
            }
        } else {
            let _ = index_remove(&mut index, path.as_str());
            AddOutcome::Missing
        };
        outcomes.push(outcome);
        i = i + 1;
    }
    if let Err(e) = index_write(&mut index) {
        return Err(backend_error("Failed to write index", &e));
    }
    let res = partition_stage(&paths, &outcomes);
    proof {
        lemma_stage_counts(paths@, outcomes@, paths@.len());
        assert(views(res.staged@).len() == res.staged@.len());
        assert(views(res.warnings@).len() == res.warnings@.len());
        assert(stage_split(paths@, outcomes@, res));
        assert(split_of_request(paths@, res));
    }
    Ok(res)
}

/// The failure owed when a stage request staged nothing but produced warnings.
pub open spec fn nothing_staged_text(warnings: Seq<String>) -> Seq<char> {
    "No files could be staged: "@ + joined(views(warnings), "; "@)
}

/// Refuses a stage result that staged nothing and only produced warnings, so
/// that no empty commit follows it.
pub fn require_staged(result: &StageResult) -> (r: Result<(), AppError>)
    ensures
        r is Err <==> (result.staged@.len() == 0 && result.warnings@.len() > 0),
        r matches Err(e) ==> (e matches AppError::Precondition(s) && s@ == nothing_staged_text(
            result.warnings@,
        )),
{
    if result.staged.len() == 0 && result.warnings.len() > 0 {
        let joined_text = crate::text::join_with(&result.warnings, "; ");
        Err(AppError::Precondition(concat2("No files could be staged: ", joined_text.as_str())))
    } else {
        Ok(())
    }
}

/// The resets to retry after the bulk reset of `paths`: none when it worked,
/// else one single-path batch per path, in order.
pub fn retry_batches(paths: &Vec<String>, bulk_ok: bool) -> (r: Vec<Vec<String>>)
    ensures
        bulk_ok ==> r@.len() == 0,
        !bulk_ok ==> r@.len() == paths@.len(),
        !bulk_ok ==> forall|i: int| 0 <= i < r@.len() ==> (#[trigger] r@[i])@ == seq![paths@[i]],
{
    let mut out: Vec<Vec<String>> = Vec::new();
    if bulk_ok {
        return out;
    }
    let mut i: usize = 0;
    while i < paths.len()
        invariant
            i <= paths@.len(),
            out@.len() == i,
            forall|j: int| 0 <= j < i ==> (#[trigger] out@[j])@ == seq![paths@[j]],
        decreases paths@.len() - i,
    {
        let one = vec![paths[i].clone()];
        assert(one@ =~= seq![paths@[i as int]]);
        out.push(one);
        i = i + 1;
    }
    out
}

/// Resets the index entries of `paths` to HEAD. One bulk reset is tried first;
/// when it fails, each path is reset on its own so one bad path does not block
/// the rest. While there is no commit, the paths are removed from the index.
pub fn unstage_files(repo: &git2::Repository, paths: Vec<String>) -> (r: Result<(), AppError>) {
    let commit = match head_ref(repo) {
        Ok(h) => match h.target {
            Some(t) => match find_commit(repo, t) {
                Ok(c) => Some(c),
                Err(_) => None,
            },
            None => None,
        },
        Err(_) => None,
    };
    match commit {
        Some(c) => {
            let bulk_ok = reset_paths(repo, &c, &paths).is_ok();
            let batches = retry_batches(&paths, bulk_ok);
            let mut i: usize = 0;
            while i < batches.len()
                invariant
                    i <= batches@.len(),
                decreases batches@.len() - i,
            {
                let _ = reset_paths(repo, &c, &batches[i]);
                i = i + 1;
            }
            Ok(())
        },
        None => {
            let mut index = match open_index(repo) {
                Ok(i) => i,
                Err(e) => return Err(backend_error("Failed to get index", &e)),
            };
            let mut i: usize = 0;
            while i < paths.len()
                invariant
                    i <= paths@.len(),
                decreases paths@.len() - i,
            {
                let _ = index_remove(&mut index, paths[i].as_str());
                i = i + 1;
            }
            match index_write(&mut index) {
                Ok(()) => Ok(()),
                Err(e) => Err(backend_error("Failed to write index", &e)),
            }
        },
    }
}

/// Rewrites the tip commit with the current index, the session identity and
/// `message`; returns the new commit id. Takes no snapshot.
pub fn amend_head(repo: &git2::Repository, message: &str) -> (r: Result<String, AppError>)
    ensures
        r matches Ok(id) ==> is_object_id(id@),
        r matches Err(e) ==> e is Git,
{
    let tree = match index_tree(repo) {
        Ok(t) => t,
        Err(e) => return Err(e),
    };
    let sig = match identity(repo) {
        Ok(s) => s,
        Err(e) => return Err(e),
    };
    let last = match head_commit(repo) {
        Ok(c) => c,
        Err(e) => return Err(e),
    };
    match amend_commit(&last, "HEAD", &sig, message, &tree) {
        Ok(id) => Ok(oid_text(&id)),
        Err(e) => Err(backend_error("Failed to amend commit", &e)),
    }
}

/// Takes a safety snapshot, then amends the tip commit (see `amend_head`).
/// When the snapshot fails nothing is amended.
pub fn amend_last_commit(repo: &git2::Repository, message: &str) -> (r: Result<String, AppError>)
    ensures
        r matches Ok(id) ==> is_object_id(id@),
        r matches Err(e) ==> e is Git,
{
    match take_snapshot(repo, "amend") {
        Ok(_) => amend_head(repo, message),
        Err(e) => Err(e),
    }
}

/// The two patch-applying operations.
#[derive(PartialEq, Eq, Structural, Clone, Copy, Debug)]
pub enum PickKind {
    CherryPick,
    Revert,
}

/// The message of the commit a pick records: the picked commit's message for a
/// cherry-pick (a stock text when it has none), `Revert "<message>"` for a revert.
pub open spec fn pick_message(kind: PickKind, source: Option<Seq<char>>) -> Seq<char> {
    match kind {
        PickKind::CherryPick => match source {
            Some(m) => m,
            None => "Cherry-picked commit"@,
        },
        PickKind::Revert => "Revert \""@ + match source {
            Some(m) => m,
            None => ""@,
        } + "\""@,
    }
}

/// The text of `pick_message`.
pub fn pick_message_text(kind: PickKind, source: Option<String>) -> (r: String)
    ensures
        r@ == pick_message(
            kind,
            match source {
                Some(m) => Some(m@),
                None => None,
            },
        ),
{
    proof {
        reveal_strlit("");
    }
    match kind {
        PickKind::CherryPick => match source {
            Some(m) => m,
            None => String::from_str("Cherry-picked commit"),
        },
        PickKind::Revert => {
            let body = match source {
                Some(m) => m,
                None => String::new(),
            };
            concat3("Revert \"", body.as_str(), "\"")
        },
    }
}

/// The label under which a pick's snapshot is taken.
pub open spec fn pick_label(kind: PickKind) -> Seq<char> {
    match kind {
        PickKind::CherryPick => "cherry-pick"@,
        PickKind::Revert => "revert"@,
    }
}

pub fn pick_label_text(kind: PickKind) -> (r: &'static str)
    ensures
        r@ == pick_label(kind),
{
    match kind {
        PickKind::CherryPick => "cherry-pick",
        PickKind::Revert => "revert",
    }
}

/// The states of a cherry-pick or revert.
#[derive(PartialEq, Eq, Structural, Clone, Copy, Debug)]
pub enum PickState {
    Idle,
    InProgress,
    Committed,
    ConflictPending,
}

/// What moves a pick along.
#[derive(PartialEq, Eq, Structural, Clone, Copy, Debug)]
pub enum PickEvent {
    /// The operation starts.
    Start,
    /// The patch was applied; whether it left conflicts in the index.
    Applied { conflicts: bool },
    /// The backend's operation state was cleaned up, with this many index
    /// conflicts still unresolved.
    CleanedUp { remaining: usize },
}

/// The pick state machine: Idle -> InProgress -> Committed or ConflictPending;
/// ConflictPending -> Idle only by a cleanup with no conflict left; Committed
/// -> Idle by its cleanup. Any other event leaves the state as it is.
pub open spec fn pick_step(s: PickState, e: PickEvent) -> PickState {
    match (s, e) {
        (PickState::Idle, PickEvent::Start) => PickState::InProgress,
        (PickState::InProgress, PickEvent::Applied { conflicts }) => if conflicts {
            PickState::ConflictPending
        } else {
            PickState::Committed
        },
        (PickState::Committed, PickEvent::CleanedUp { .. }) => PickState::Idle,
        (PickState::ConflictPending, PickEvent::CleanedUp { remaining }) => if remaining == 0 {
            PickState::Idle
        } else {
            PickState::ConflictPending
        },
        _ => s,
    }
}

impl PickState {
    /// The state after `e`.
    pub fn next(self, e: PickEvent) -> (r: PickState)
        ensures
            r == pick_step(self, e),
    {
        match (self, e) {
            (PickState::Idle, PickEvent::Start) => PickState::InProgress,
            (PickState::InProgress, PickEvent::Applied { conflicts }) => if conflicts {
                PickState::ConflictPending
            } else {
                PickState::Committed
            },
            (PickState::Committed, PickEvent::CleanedUp { .. }) => PickState::Idle,
            (PickState::ConflictPending, PickEvent::CleanedUp { remaining }) => if remaining
                == 0 {
                PickState::Idle
            } else {
                PickState::ConflictPending
            },
            _ => self,
        }
    }
}

/// A pending conflict is left only through a cleanup that finds no conflict left.
pub proof fn lemma_conflict_left_only_by_clean_cleanup(e: PickEvent)
    ensures
        pick_step(PickState::ConflictPending, e) != PickState::ConflictPending
            ==> e == (PickEvent::CleanedUp { remaining: 0 }),
        pick_step(PickState::ConflictPending, e) != PickState::ConflictPending ==> pick_step(
            PickState::ConflictPending,
            e,
        ) == PickState::Idle,
{
}

/// A commit name the backend refuses: empty, longer than 40 characters, or
/// holding a non-hex character.
pub open spec fn bad_object_name(s: Seq<char>) -> bool {
    s.len() == 0 || s.len() > 40 || exists|i: int| 0 <= i < s.len() && !is_hex(#[trigger] s[i])
}

/// How an applied pick goes on, given how many index conflicts it left: with
/// none it moves on to its commit; with some it stops in `ConflictPending`
/// and reports them as a conflict.
pub fn conflict_outcome(kind: PickKind, state: PickState, conflicts: usize) -> (r: Result<
    PickState,
    AppError,
>)
    requires
        state == PickState::InProgress,
    ensures
        (r is Err) == (conflicts > 0),
        r matches Err(e) ==> e is Conflict,
        conflicts > 0 ==> pick_step(state, PickEvent::Applied { conflicts: true })
            == PickState::ConflictPending,
        r matches Ok(s) ==> s == PickState::Committed,
{
    let next = state.next(PickEvent::Applied { conflicts: conflicts > 0 });
    if next == PickState::ConflictPending {
        Err(
            AppError::Conflict(
                String::from_str(
                    match kind {
                        PickKind::CherryPick => "Cherry-pick resulted in conflicts. Please resolve them.",
                        PickKind::Revert => "Revert resulted in conflicts. Please resolve them.",
                    },
                ),
            ),
        )
    } else {
        Ok(next)
    }
}

/// Applies `sha` (as a cherry-pick or a revert) after a safety snapshot (see
/// `pick_unguarded`). When the snapshot fails nothing is applied.
pub fn apply_commit(repo: &git2::Repository, sha: &str, kind: PickKind) -> (r: Result<
    PickState,
    AppError,
>)
    ensures
        r matches Ok(s) ==> s == PickState::Committed,
        bad_object_name(sha@) ==> r is Err,
        r matches Err(e) ==> e is Git || e is Conflict,
{
    match take_snapshot(repo, pick_label_text(kind)) {
        Ok(_) => pick_unguarded(repo, sha, kind),
        Err(e) => Err(e),
    }
}

/// Applies `sha` as a cherry-pick or a revert, without a snapshot. With
/// conflicts it stops and reports them, leaving them for resolution; else it
/// commits with the current HEAD as sole parent and clears the operation
/// state. Returns the state the pick ended in.
pub fn pick_unguarded(repo: &git2::Repository, sha: &str, kind: PickKind) -> (r: Result<
    PickState,
    AppError,
>)
    ensures
        r matches Ok(s) ==> s == PickState::Committed,
        bad_object_name(sha@) ==> r is Err,
        r matches Err(e) ==> e is Git || e is Conflict,
{
    let state = PickState::Idle.next(PickEvent::Start);
    let oid = match parse_oid(sha) {
        Ok(o) => o,
        Err(e) => return Err(backend_error("Invalid commit id", &e)),
    };
    let commit = match find_commit(repo, oid) {
        Ok(c) => c,
        Err(e) => return Err(backend_error("Commit not found", &e)),
    };
    let applied = match kind {
        PickKind::CherryPick => apply_cherrypick(repo, &commit),
        PickKind::Revert => apply_revert(repo, &commit),
    };
    if let Err(e) = applied {
        return Err(
            backend_error(
                match kind {
                    PickKind::CherryPick => "Cherry-pick failed",
                    PickKind::Revert => "Revert failed",
                },
                &e,
            ),
        );
    }
    let index = match open_index(repo) {
        Ok(i) => i,
        Err(e) => return Err(backend_error("Failed to get index", &e)),
    };
    let conflicts = match index_conflicts(&index) {
        Ok(c) => c.len(),
        Err(e) => return Err(backend_error("Failed to get conflicts", &e)),
    };
    let state = match conflict_outcome(kind, state, conflicts) {
        Ok(s) => s,
        Err(e) => return Err(e),
    };
    let tree = match index_tree(repo) {
        Ok(t) => t,
        Err(e) => return Err(e),
    };
    let sig = match identity(repo) {
        Ok(s) => s,
        Err(e) => return Err(e),
    };
    let parent = match head_commit(repo) {
        Ok(c) => c,
        Err(e) => return Err(e),
    };
    let message = pick_message_text(kind, commit_facts(&commit).message);
    if let Err(e) = write_commit(repo, "HEAD", &sig, message.as_str(), &tree, Some(&parent)) {
        return Err(backend_error("Failed to commit", &e));
    }
    if let Err(e) = cleanup_state(repo) {
        return Err(backend_error("Failed to clean up operation state", &e));
    }
    Ok(state)
}

/// Cherry-picks `sha` onto HEAD (see `apply_commit`).
pub fn cherry_pick(repo: &git2::Repository, sha: &str) -> (r: Result<(), AppError>)
    ensures
        bad_object_name(sha@) ==> r is Err,
        r matches Err(e) ==> e is Git || e is Conflict,
{
    match apply_commit(repo, sha, PickKind::CherryPick) {
        Ok(_) => Ok(()),
        Err(e) => Err(e),
    }
}

/// Reverts `sha` on top of HEAD (see `apply_commit`).
pub fn revert_commit(repo: &git2::Repository, sha: &str) -> (r: Result<(), AppError>)
    ensures
        bad_object_name(sha@) ==> r is Err,
        r matches Err(e) ==> e is Git || e is Conflict,
{
    match apply_commit(repo, sha, PickKind::Revert) {
        Ok(_) => Ok(()),
        Err(e) => Err(e),
    }
}

/// Ends a conflicted pick once every conflict is resolved: refuses while the
/// index still holds conflicts, else clears the backend's operation state.
pub fn finish_conflict_resolution(repo: &git2::Repository) -> (r: Result<PickState, AppError>)
    ensures
        r matches Ok(s) ==> s == PickState::Idle,
{
    let index = match open_index(repo) {
        Ok(i) => i,
        Err(e) => return Err(backend_error("Failed to get index", &e)),
    };
    let remaining = match index_conflicts(&index) {
        Ok(c) => c.len(),
        Err(e) => return Err(backend_error("Failed to get conflicts", &e)),
    };
    let state = PickState::ConflictPending.next(PickEvent::CleanedUp { remaining });
    if state != PickState::Idle {
        return Err(AppError::Conflict(String::from_str("Unresolved conflicts remain")));
    }
    match cleanup_state(repo) {
        Ok(()) => Ok(state),
        Err(e) => Err(backend_error("Failed to clean up operation state", &e)),
    }
}

/// Whether `s` holds a NUL.
pub fn has_nul(s: &str) -> (r: bool)
    ensures
        r == !no_nul(s@),
{
    let n = s.unicode_len();
    let mut i: usize = 0;
    while i < n
        invariant
            n == s@.len(),
            i <= n,
            forall|j: int| 0 <= j < i ==> s@[j] != '\0',
        decreases n - i,
    {
        if s.get_char(i) == '\0' {
            return true;
        }
        i = i + 1;
    }
    false
}

/// What is left for the caller to delete after discarding one path: nothing
/// when HEAD restored it; else its full path when it exists.
pub fn leftover_to_remove(restored: bool, full: String, exists: bool) -> (r: Option<String>)
    ensures
        r == (if !restored && exists {
            Some(full)
        } else {
            None::<String>
        }),
{
    if !restored && exists {
        Some(full)
    } else {
        None
    }
}

/// Whether `full` is `rel` joined under some directory.
pub open spec fn joined_under_some_dir(full: Seq<char>, rel: Seq<char>) -> bool {
    exists|dir: Seq<char>| #[trigger] joined_path(dir, rel) == full
}

/// Restores one path from HEAD by a forced checkout. When HEAD cannot restore
/// it (typically an untracked file), the path must be deleted from the working
/// tree instead: its full path is returned when it exists, for the caller to
/// remove. A path holding a NUL is refused.
pub fn discard_changes(repo: &git2::Repository, path: &str) -> (r: Result<
    Option<String>,
    AppError,
>)
    ensures
        !no_nul(path@) ==> r matches Err(AppError::Precondition(_)),
        r matches Err(AppError::Precondition(_)) ==> !no_nul(path@),
        r matches Ok(Some(p)) ==> joined_under_some_dir(p@, path@),
{
    if has_nul(path) {
        return Err(precondition("Path holds a NUL character"));
    }
    let restored = checkout_head_forced(repo, Some(path)).is_ok();
    if restored {
        return Ok(leftover_to_remove(true, String::new(), false));
    }
    let dir = match workdir(repo) {
        Some(d) => d,
        None => return Err(AppError::Git(String::from_str("No workdir"))),
    };
    let full = join_path(dir.as_str(), path);
    let exists = path_exists(full.as_str());
    proof {
        assert(joined_under_some_dir(full@, path@));
    }
    Ok(leftover_to_remove(false, full, exists))
}

/// Forces the whole working tree back to HEAD. A snapshot is taken first;
/// its failure does not stop the discard.
pub fn discard_all_changes(repo: &git2::Repository) -> (r: Result<(), AppError>) {
    let _ = take_snapshot(repo, "discard-all");
    discard_all_unguarded(repo)
}

/// The forced checkout of `discard_all_changes`, without its snapshot.
pub fn discard_all_unguarded(repo: &git2::Repository) -> (r: Result<(), AppError>) {
    match checkout_head_forced(repo, None) {
        Ok(()) => Ok(()),
        Err(e) => Err(backend_error("Failed to discard all changes", &e)),
    }
}

/// Creates branch `name` at the HEAD commit and checks it out. A name that is
/// not a safe argument is refused before the backend sees it.
pub fn create_branch(repo: &git2::Repository, name: &str) -> (r: Result<(), AppError>)
    ensures
        !safe_arg(name@) ==> (r matches Err(AppError::Precondition(s)) && s@
            == "Invalid branch name"@),
        r matches Err(AppError::Precondition(_)) ==> !safe_arg(name@),
{
    if !is_safe_git_arg(name) {
        return Err(precondition("Invalid branch name"));
    }
    let commit = match head_commit(repo) {
        Ok(c) => c,
        Err(e) => return Err(e),
    };
    if let Err(e) = create_branch_at(repo, name, &commit, false) {
        return Err(backend_error("Failed to create branch", &e));
    }
    checkout_branch(repo, name)
}

/// Checks out local branch `name`: the working tree takes its tree and HEAD
/// points at it. A name that is not a safe argument is refused.
pub fn checkout_branch(repo: &git2::Repository, name: &str) -> (r: Result<(), AppError>)
    ensures
        !safe_arg(name@) ==> (r matches Err(AppError::Precondition(s)) && s@
            == "Invalid branch name"@),
        r matches Err(AppError::Precondition(_)) ==> !safe_arg(name@),
{
    if !is_safe_git_arg(name) {
        return Err(precondition("Invalid branch name"));
    }
    let refname = concat2("refs/heads/", name);
    let target = match find_ref(repo, refname.as_str()) {
        Ok(f) => f.target,
        Err(e) => return Err(backend_error("Failed to find branch", &e)),
    };
    let commit = match target {
        Some(t) => match find_commit(repo, t) {
            Ok(c) => c,
            Err(e) => return Err(backend_error("Failed to find branch", &e)),
        },
        None => return Err(AppError::Git(String::from_str("Failed to find branch"))),
    };
    if let Err(e) = checkout_commit_tree(repo, &commit) {
        return Err(backend_error("Failed to checkout tree", &e));
    }
    match set_head(repo, refname.as_str()) {
        Ok(()) => Ok(()),
        Err(e) => Err(backend_error("Failed to set HEAD", &e)),
    }
}

/// Records the index as a new commit on HEAD with the session identity; the
/// first commit has no parent, every later one the HEAD commit. Returns its id.
pub fn create_commit(repo: &git2::Repository, message: &str) -> (r: Result<String, AppError>)
    ensures
        r matches Ok(id) ==> is_object_id(id@),
        r matches Err(e) ==> e is Git,
{
    let tree = match index_tree(repo) {
        Ok(t) => t,
        Err(e) => return Err(e),
    };
    let sig = match identity(repo) {
        Ok(s) => s,
        Err(e) => return Err(e),
    };
    let parent = choose_parent(head_commit(repo));
    match write_commit(repo, "HEAD", &sig, message, &tree, parent.as_ref()) {
        Ok(id) => Ok(oid_text(&id)),
        Err(e) => Err(backend_error("Failed to create commit", &e)),
    }
}

/// The branch record of a listed name, marked current when it is the name HEAD
/// shows.
pub open spec fn describes_branch(b: BranchInfo, name: Option<String>, current: Option<Seq<char>>) -> bool {
    &&& b.name@ == (match name {
        Some(n) => n@,
        None => "unknown"@,
    })
    &&& b.is_current == (current == Some(b.name@))
    &&& !b.is_remote
}

/// The view of an optional string.
pub open spec fn opt_view_of(o: &Option<String>) -> Option<Seq<char>> {
    match o {
        Some(c) => Some(c@),
        None => None,
    }
}

/// Branch records for the listed local branch names.
pub fn branch_list(names: Vec<Option<String>>, current: &Option<String>) -> (r: Vec<BranchInfo>)
    ensures
        r@.len() == names@.len(),
        forall|i: int|
            0 <= i < r@.len() ==> describes_branch(
                #[trigger] r@[i],
                names@[i],
                match current {
                    Some(c) => Some(c@),
                    None => None,
                },
            ),
{
    let mut out: Vec<BranchInfo> = Vec::new();
    let mut i: usize = 0;
    while i < names.len()
        invariant
            i <= names@.len(),
            out@.len() == i,
            forall|j: int|
                0 <= j < i ==> describes_branch(
                    #[trigger] out@[j],
                    names@[j],
                    match current {
                        Some(c) => Some(c@),
                        None => None,
                    },
                ),
        decreases names@.len() - i,
    {
        let name = match &names[i] {
            Some(n) => n.clone(),
            None => String::from_str("unknown"),
        };
        let is_current = match current {
            Some(c) => *c == name,
            None => false,
        };
        out.push(BranchInfo { name, is_current, is_remote: false });
        i = i + 1;
    }
    out
}

/// The local branches, the one HEAD is on marked current.
pub fn get_branches(repo: &git2::Repository) -> (r: Result<Vec<BranchInfo>, AppError>)
    ensures
        r matches Ok(v) ==> forall|i: int| 0 <= i < v@.len() ==> !(#[trigger] v@[i]).is_remote,
        r matches Ok(v) ==> forall|i: int, j: int|
            0 <= i < v@.len() && 0 <= j < v@.len() && (#[trigger] v@[i]).is_current && (#[trigger] v@[j]).is_current
                ==> v@[i].name@ == v@[j].name@,
{
    let names = match local_branch_names(repo) {
        Ok(n) => n,
        Err(e) => return Err(backend_error("Failed to get branches", &e)),
    };
    let current = match head_ref(repo) {
        Ok(h) => h.shorthand,
        Err(_) => None,
    };
    let v = branch_list(names, &current);
    assert(forall|i: int| 0 <= i < v@.len() ==> !(#[trigger] v@[i]).is_remote);
    assert forall|i: int, j: int|
        0 <= i < v@.len() && 0 <= j < v@.len() && (#[trigger] v@[i]).is_current && (#[trigger] v@[j]).is_current
            implies v@[i].name@ == v@[j].name@ by {
        assert(describes_branch(v@[i], names@[i], opt_view_of(&current)));
        assert(describes_branch(v@[j], names@[j], opt_view_of(&current)));
    }
    Ok(v)
}

/// Stashes the working-tree and index changes, untracked files included.
pub fn stash_save(repo: &mut git2::Repository, message: Option<&str>) -> (r: Result<(), AppError>) {
    let sig = match identity(repo) {
        Ok(s) => s,
        Err(e) => return Err(e),
    };
    let text = match message {
        Some(m) => m,
        None => "",
    };
    match save_stash(repo, &sig, text, true) {
        Ok(()) => Ok(()),
        Err(e) => Err(backend_error("Failed to stash", &e)),
    }
}

/// Applies stash entry `index` (0 is the most recent) and drops it.
pub fn stash_pop(repo: &mut git2::Repository, index: usize) -> (r: Result<(), AppError>) {
    match pop_stash(repo, index) {
        Ok(()) => Ok(()),
        Err(e) => Err(backend_error("Failed to pop stash", &e)),
    }
}

/// Stash records for the listed entries, in order; each is numbered by its
/// position, 0 being the most recent.
pub fn stash_infos(entries: Vec<StashEntry>) -> (r: Vec<StashInfo>)
    ensures
        r@.len() == entries@.len(),
        forall|i: int|
            0 <= i < r@.len() ==> (#[trigger] r@[i]).index == i && r@[i].message
                == entries@[i].message && r@[i].sha == entries@[i].sha,
{
    let mut out: Vec<StashInfo> = Vec::new();
    let mut i: usize = 0;
    while i < entries.len()
        invariant
            i <= entries@.len(),
            out@.len() == i,
            forall|j: int|
                0 <= j < i ==> (#[trigger] out@[j]).index == j && out@[j].message
                    == entries@[j].message && out@[j].sha == entries@[j].sha,
        decreases entries@.len() - i,
    {
        let e = &entries[i];
        out.push(StashInfo { index: i, message: e.message.clone(), sha: e.sha.clone() });
        i = i + 1;
    }
    out
}

/// Every stash entry with its index, message and commit id, most recent first.
pub fn stash_list(repo: &mut git2::Repository) -> (r: Result<Vec<StashInfo>, AppError>)
    ensures
        r matches Ok(v) ==> forall|i: int| 0 <= i < v@.len() ==> (#[trigger] v@[i]).index == i,
{
    match stash_entries(repo) {
        Ok(entries) => Ok(stash_infos(entries)),
        Err(e) => Err(backend_error("Failed to list stashes", &e)),
    }
}

/// The path of a conflict: the ancestor stage's, else ours, else theirs, else empty.
pub open spec fn conflict_path(c: ConflictStages) -> Seq<char> {
    match (c.ancestor, c.our, c.their) {
        (Some(a), _, _) => a@,
        (None, Some(o), _) => o@,
        (None, None, Some(t)) => t@,
        (None, None, None) => ""@,
    }
}

/// The side status of a conflict: `modified` when the stage is present, else `deleted`.
pub open spec fn side_status(present: bool) -> Seq<char> {
    if present {
        "modified"@
    } else {
        "deleted"@
    }
}

/// One of the two side statuses.
pub open spec fn is_side_status(s: Seq<char>) -> bool {
    s == "modified"@ || s == "deleted"@
}

/// The conflict record of one conflict's stages.
pub fn conflict_info(c: &ConflictStages) -> (r: ConflictInfo)
    ensures
        r.path@ == conflict_path(*c),
        r.our_status@ == side_status(c.our is Some),
        r.their_status@ == side_status(c.their is Some),
{
    proof {
        reveal_strlit("");
    }
    let path = match (&c.ancestor, &c.our, &c.their) {
        (Some(a), _, _) => a.clone(),
        (None, Some(o), _) => o.clone(),
        (None, None, Some(t)) => t.clone(),
        (None, None, None) => String::new(),
    };
    let our = if c.our.is_some() {
        "modified"
    } else {
        "deleted"
    };
    let their = if c.their.is_some() {
        "modified"
    } else {
        "deleted"
    };
    ConflictInfo { path, our_status: String::from_str(our), their_status: String::from_str(their) }
}

/// Whether `r` is the record of conflict `c` (see `conflict_info`).
pub open spec fn describes_conflict(r: ConflictInfo, c: ConflictStages) -> bool {
    &&& r.path@ == conflict_path(c)
    &&& r.our_status@ == side_status(c.our is Some)
    &&& r.their_status@ == side_status(c.their is Some)
}

/// Whether `v` holds one record per conflict of `stages`, in order.
pub open spec fn records_conflicts(v: Seq<ConflictInfo>, stages: Seq<ConflictStages>) -> bool {
    &&& v.len() == stages.len()
    &&& forall|i: int| 0 <= i < v.len() ==> describes_conflict(#[trigger] v[i], stages[i])
}

/// Whether `v` is the record list of some list of index conflicts.
pub open spec fn conflict_list(v: Seq<ConflictInfo>) -> bool {
    exists|stages: Seq<ConflictStages>| #[trigger] records_conflicts(v, stages)
}

/// One record per conflict, in order.
pub fn conflict_infos(stages: &Vec<ConflictStages>) -> (r: Vec<ConflictInfo>)
    ensures
        records_conflicts(r@, stages@),
{
    let mut out: Vec<ConflictInfo> = Vec::new();
    let mut i: usize = 0;
    while i < stages.len()
        invariant
            i <= stages@.len(),
            out@.len() == i,
            forall|j: int| 0 <= j < i ==> describes_conflict(#[trigger] out@[j], stages@[j]),
        decreases stages@.len() - i,
    {
        out.push(conflict_info(&stages[i]));
        i = i + 1;
    }
    out
}

/// One record per unresolved index conflict (see `conflict_infos`).
pub fn get_conflicts(repo: &git2::Repository) -> (r: Result<Vec<ConflictInfo>, AppError>)
    ensures
        r matches Ok(v) ==> conflict_list(v@),
        r matches Ok(v) ==> forall|i: int|
            0 <= i < v@.len() ==> is_side_status((#[trigger] v@[i]).our_status@) && is_side_status(
                v@[i].their_status@,
            ),
{
    let index = match open_index(repo) {
        Ok(i) => i,
        Err(e) => return Err(backend_error("Failed to get index", &e)),
    };
    let stages = match index_conflicts(&index) {
        Ok(s) => s,
        Err(e) => return Err(backend_error("Failed to get conflicts", &e)),
    };
    let out = conflict_infos(&stages);
    proof {
        assert(conflict_list(out@));
        assert forall|i: int| 0 <= i < out@.len() implies is_side_status((#[trigger] out@[i]).our_status@)
            && is_side_status(out@[i].their_status@) by {
            assert(describes_conflict(out@[i], stages@[i]));
        }
    }
    Ok(out)
}

/// Marks `path` resolved by staging its working-tree content. The content on
/// disk is what counts: a caller meaning "ours" or "theirs" writes that
/// content first, whatever `_use_ours` says.
pub fn resolve_conflict(repo: &git2::Repository, path: &str, _use_ours: bool) -> (r: Result<
    (),
    AppError,
>) {
    let mut index = match open_index(repo) {
        Ok(i) => i,
        Err(e) => return Err(backend_error("Failed to get index", &e)),
    };
    if let Err(e) = index_add(&mut index, path) {
        return Err(backend_error("Failed to resolve", &e));
    }
    match index_write(&mut index) {
        Ok(()) => Ok(()),
        Err(e) => Err(backend_error("Failed to write index", &e)),
    }
}

/// The URL of remote `name`; empty when it has none.
pub fn get_remote_url(repo: &git2::Repository, name: &str) -> (r: Result<String, AppError>) {
    match find_remote(repo, name) {
        Ok(remote) => match remote_url(&remote) {
            Some(u) => Ok(u),
            None => Ok(String::new()),
        },
        Err(e) => Err(backend_error("Failed to find remote", &e)),
    }
}

/// Sets the URL of remote `name`.
pub fn set_remote_url(repo: &git2::Repository, name: &str, url: &str) -> (r: Result<
    (),
    AppError,
>) {
    match crate::backend::set_remote_url(repo, name, url) {
        Ok(()) => Ok(()),
        Err(e) => Err(backend_error("Failed to set remote URL", &e)),
    }
}

/// What a pull does with a fetched tip.
#[derive(PartialEq, Eq, Structural, Clone, Copy, Debug)]
pub enum PullStep {
    /// Nothing to do.
    UpToDate,
    /// Move the branch to the fetched tip and check it out.
    FastForward,
    /// The histories diverged: report it, change nothing.
    Diverged,
}

/// The step a merge analysis calls for: up to date wins, then fast-forward,
/// else the histories diverged. A pull never merges.
pub open spec fn pull_step(up_to_date: bool, fast_forward: bool) -> PullStep {
    if up_to_date {
        PullStep::UpToDate
    } else if fast_forward {
        PullStep::FastForward
    } else {
        PullStep::Diverged
    }
}

/// The step for a merge analysis.
pub fn decide_pull(facts: &MergeFacts) -> (r: PullStep)
    ensures
        r == pull_step(facts.up_to_date, facts.fast_forward),
{
    if facts.up_to_date {
        PullStep::UpToDate
    } else if facts.fast_forward {
        PullStep::FastForward
    } else {
        PullStep::Diverged
    }
}

/// What a pull reports for a merge analysis: the step to take, or
/// `NonFastForward` when the histories diverged.
pub fn pull_outcome(facts: &MergeFacts) -> (r: Result<PullStep, AppError>)
    ensures
        r is Err <==> pull_step(facts.up_to_date, facts.fast_forward) == PullStep::Diverged,
        r matches Ok(s) ==> s == pull_step(facts.up_to_date, facts.fast_forward),
        r matches Err(e) ==> e is NonFastForward,
{
    match decide_pull(facts) {
        PullStep::Diverged => Err(
            AppError::NonFastForward(
                String::from_str("Local and remote histories have diverged; nothing was changed"),
            ),
        ),
        step => Ok(step),
    }
}

/// The second half of a pull, after the fetch: analyses `FETCH_HEAD` against
/// HEAD; does nothing when up to date, moves the current branch to the fetched
/// tip and force-checks it out on a fast-forward, and on diverged histories
/// reports `NonFastForward` without touching anything.
pub fn fast_forward_to_fetched(repo: &git2::Repository) -> (r: Result<PullStep, AppError>)
    ensures
        r matches Ok(s) ==> s != PullStep::Diverged,
{
    let fetched = match find_ref(repo, "FETCH_HEAD") {
        Ok(f) => f.target,
        Err(e) => return Err(backend_error("Failed to read FETCH_HEAD", &e)),
    };
    let tip = match fetched {
        Some(t) => t,
        None => return Err(AppError::Git(String::from_str("FETCH_HEAD does not point at a commit"))),
    };
    let head = match head_ref(repo) {
        Ok(h) => h,
        Err(e) => return Err(backend_error("Failed to get HEAD", &e)),
    };
    let branch = match (head.is_branch, head.name) {
        (true, Some(n)) => n,
        _ => return Err(precondition("HEAD is not on a branch")),
    };
    let theirs = match annotated_commit(repo, tip) {
        Ok(c) => c,
        Err(e) => return Err(backend_error("Failed to read the fetched commit", &e)),
    };
    let facts = match merge_analysis(repo, &theirs) {
        Ok(f) => f,
        Err(e) => return Err(backend_error("Failed to analyse merge", &e)),
    };
    let step = match pull_outcome(&facts) {
        Ok(s) => s,
        Err(e) => return Err(e),
    };
    match step {
        PullStep::UpToDate => Ok(step),
        PullStep::FastForward => {
            if let Err(e) = write_reference(repo, branch.as_str(), tip, true, "pull: fast-forward") {
                return Err(backend_error("Failed to move branch", &e));
            }
            if let Err(e) = set_head(repo, branch.as_str()) {
                return Err(backend_error("Failed to set HEAD", &e));
            }
            match checkout_head_forced(repo, None) {
                Ok(()) => Ok(step),
                Err(e) => Err(backend_error("Failed to check out", &e)),
            }
        },
        PullStep::Diverged => Ok(step),
    }
}

} // verus!
