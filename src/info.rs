//! Derived repository state: branch label, ahead/behind counts, dirty flag and
//! a normalized working-directory path.

use vstd::prelude::*;
use vstd::string::*;
use crate::backend::{
    ahead_behind, find_ref, head_ref, metadata_dir, status_entries, upstream_name, workdir,
    RefFacts,
};
use crate::error::AppError;
use crate::models::RepositoryInfo;
use crate::text::{backend_error, is_separator, starts_with, strip_prefix_or_keep, trim_trailing_separators, trimmed};

verus! {

/// What HEAD is, as far as the summary needs it.
pub enum HeadState {
    /// HEAD resolves to a commit through a local branch.
    Branch { shorthand: Option<String> },
    /// HEAD resolves to a commit directly.
    Detached,
    /// HEAD names a branch that has no commit yet; its symbolic target when readable.
    Unborn { symbolic_target: Option<String> },
}

/// The branch name shown for a HEAD state.
pub open spec fn branch_label(h: HeadState) -> Seq<char> {
    match h {
        HeadState::Branch { shorthand: Some(s) } => s@,
        HeadState::Branch { shorthand: None } => "unknown"@,
        HeadState::Detached => "detached"@,
        HeadState::Unborn { symbolic_target: Some(t) } => if starts_with(t@, "refs/heads/"@) {
            t@.subrange("refs/heads/"@.len() as int, t@.len() as int)
        } else {
            t@
        },
        HeadState::Unborn { symbolic_target: None } => "unknown"@,
    }
}

/// The (ahead, behind) pair reported: the upstream comparison when HEAD is on a
/// branch that has one, else zero and zero.
pub open spec fn reported_counts(h: HeadState, tracking: Option<(usize, usize)>) -> (usize, usize) {
    match (h, tracking) {
        (HeadState::Branch { .. }, Some(c)) => c,
        _ => (0, 0),
    }
}

/// The label of a HEAD state.
pub fn head_label(head: &HeadState) -> (r: String)
    ensures
        r@ == branch_label(*head),
{
    match head {
        HeadState::Branch { shorthand: Some(s) } => s.clone(),
        HeadState::Branch { shorthand: None } => String::from_str("unknown"),
        HeadState::Detached => String::from_str("detached"),
        HeadState::Unborn { symbolic_target: Some(t) } => strip_prefix_or_keep(
            t.as_str(),
            "refs/heads/",
        ),
        HeadState::Unborn { symbolic_target: None } => String::from_str("unknown"),
    }
}

/// Whether `info` is the summary of the given reading of a repository.
pub open spec fn summarizes(
    info: RepositoryInfo,
    head: HeadState,
    tracking: Option<(usize, usize)>,
    changed_entries: usize,
    dir: Seq<char>,
) -> bool {
    &&& info.path@ == trimmed(dir)
    &&& info.current_branch@ == branch_label(head)
    &&& info.is_dirty == (changed_entries > 0)
    &&& (info.ahead, info.behind) == reported_counts(head, tracking)
}

/// Whether `info` is the summary of some reading of a repository.
pub open spec fn summary_of_some_reading(info: RepositoryInfo) -> bool {
    exists|h: HeadState, t: Option<(usize, usize)>, c: usize, d: Seq<char>|
        #[trigger] summarizes(info, h, t, c, d)
}

/// The summary of a repository from what was read of it: HEAD, the upstream
/// comparison, the number of changed entries of a status scan and the
/// working directory.
pub fn repository_info_from(
    head: &HeadState,
    tracking: Option<(usize, usize)>,
    changed_entries: usize,
    dir: &str,
) -> (r: RepositoryInfo)
    ensures
        summarizes(r, *head, tracking, changed_entries, dir@),
{
    let (ahead, behind) = match (head, tracking) {
        (HeadState::Branch { .. }, Some(c)) => c,
        _ => (0, 0),
    };
    RepositoryInfo {
        path: trim_trailing_separators(dir),
        current_branch: head_label(head),
        is_dirty: changed_entries > 0,
        ahead,
        behind,
    }
}

/// A trimmed path ends in no separator.
pub proof fn lemma_trimmed_has_no_trailing_separator(s: Seq<char>)
    ensures
        !(trimmed(s).len() > 0 && is_separator(trimmed(s).last())),
        trimmed(trimmed(s)) == trimmed(s),
    decreases s.len(),
{
    if s.len() > 0 && is_separator(s.last()) {
        lemma_trimmed_has_no_trailing_separator(s.drop_last());
    }
}

/// The tip of the upstream of local branch `refname`, when it has one that resolves.
pub fn upstream_tip(repo: &git2::Repository, refname: &str) -> (r: Option<git2::Oid>) {
    match upstream_name(repo, refname) {
        Ok(Some(u)) => match find_ref(repo, u.as_str()) {
            Ok(f) => f.target,
            Err(_) => None,
        },
        _ => None,
    }
}

/// The HEAD state from what was read of HEAD: the resolved reference when
/// HEAD resolved, else the symbolic target read from HEAD itself.
pub fn classify_head(resolved: Option<&RefFacts>, symbolic_target: Option<String>) -> (r: HeadState)
    ensures
        resolved matches Some(h) ==> (h.is_branch ==> r == (HeadState::Branch {
            shorthand: h.shorthand,
        })),
        resolved matches Some(h) ==> (!h.is_branch ==> r == HeadState::Detached),
        resolved is None ==> r == (HeadState::Unborn { symbolic_target }),
{
    match resolved {
        Some(h) => if h.is_branch {
            HeadState::Branch { shorthand: h.shorthand.clone() }
        } else {
            HeadState::Detached
        },
        None => HeadState::Unborn { symbolic_target },
    }
}

/// Reads HEAD: the branch or detached commit it resolves to, or, while there
/// is no commit, the branch its symbolic target names; with the upstream
/// comparison of a branch that has an upstream.
fn read_head(repo: &git2::Repository) -> (r: (HeadState, Option<(usize, usize)>))
    ensures
        r.1 is Some ==> r.0 is Branch,
{
    match head_ref(repo) {
        Ok(h) => {
            let state = classify_head(Some(&h), None);
            if h.is_branch {
                let tracking = match (&h.name, h.target) {
                    (Some(name), Some(local)) => match upstream_tip(repo, name.as_str()) {
                        Some(up) => match ahead_behind(repo, local, up) {
                            Ok(c) => Some(c),
                            Err(_) => None,
                        },
                        None => None,
                    },
                    _ => None,
                };
                (state, tracking)
            } else {
                (state, None)
            }
        },
        Err(_) => {
            let target = match find_ref(repo, "HEAD") {
                Ok(f) => f.symbolic_target,
                Err(_) => None,
            };
            (classify_head(None, target), None)
        },
    }
}

/// The derived summary of an open repository. A missing upstream or a failed
/// comparison gives zero ahead and behind; only a failed status scan is an error.
pub fn get_repository_info(repo: &git2::Repository) -> (r: Result<RepositoryInfo, AppError>)
    ensures
        r matches Ok(info) ==> !(info.path@.len() > 0 && is_separator(info.path@.last())),
        r matches Ok(info) ==> summary_of_some_reading(info),
        r matches Err(e) ==> (e matches AppError::Git(s) && starts_with(
            s@,
            "Failed to get statuses"@ + ": "@,
        )),
{
    let (head, tracking) = read_head(repo);
    let entries = match status_entries(repo, true, true) {
        Ok(e) => e,
        Err(e) => return Err(backend_error("Failed to get statuses", &e)),
    };
    let dir = match workdir(repo) {
        Some(d) => d,
        None => metadata_dir(repo),
    };
    let info = repository_info_from(&head, tracking, entries.len(), dir.as_str());
    proof {
        lemma_trimmed_has_no_trailing_separator(dir@);
        assert(summarizes(info, head, tracking, entries.len(), dir@));
        assert(summary_of_some_reading(info));
    }
    Ok(info)
}

} // verus!
