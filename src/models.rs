//! Plain records handed to and from the session layer.

use vstd::prelude::*;

verus! {

/// Derived summary of an open repository.
#[derive(Debug, Clone)]
pub struct RepositoryInfo {
    pub path: String,
    pub current_branch: String,
    pub is_dirty: bool,
    pub ahead: usize,
    pub behind: usize,
}

/// One path of a status scan. `status` is one of `added`, `modified`,
/// `deleted`, `untracked`, `unknown`.
#[derive(Debug, Clone)]
pub struct FileStatus {
    pub path: String,
    pub status: String,
    pub staged: bool,
}

/// One entry of the commit history.
#[derive(Debug, Clone)]
pub struct CommitInfo {
    pub sha: String,
    pub message: String,
    pub author: String,
    pub email: String,
    pub timestamp: i64,
    pub is_pushed: bool,
    pub parents: Vec<String>,
}

/// A local branch.
#[derive(Debug, Clone)]
pub struct BranchInfo {
    pub name: String,
    pub is_current: bool,
    pub is_remote: bool,
}

/// The patch of one file, with its added and deleted line counts.
#[derive(Debug, Clone)]
pub struct DiffInfo {
    pub path: String,
    pub additions: usize,
    pub deletions: usize,
    pub diff_text: String,
}

/// A stash entry; index 0 is the most recent.
#[derive(Debug, Clone)]
pub struct StashInfo {
    pub index: usize,
    pub message: String,
    pub sha: String,
}

/// An unresolved index conflict; each side is `modified` or `deleted`.
#[derive(Debug, Clone)]
pub struct ConflictInfo {
    pub path: String,
    pub our_status: String,
    pub their_status: String,
}

/// The settings document.
#[derive(Debug, Clone)]
pub struct Settings {
    pub user_name: String,
    pub user_email: String,
    pub ssh_key_path: Option<String>,
    pub ssh_passphrase: Option<String>,
    pub theme: String,
    pub recent_repositories: Vec<String>,
    pub last_opened_repository: Option<String>,
}

#[derive(Debug)]
pub struct CloneOptions {
    pub url: String,
    pub path: String,
}

#[derive(Debug)]
pub struct CommitOptions {
    pub message: String,
    pub files: Vec<String>,
}

#[derive(Debug)]
pub struct BranchOptions {
    pub name: String,
}

#[derive(Debug)]
pub struct StashOptions {
    pub message: Option<String>,
}

/// What a stage request did: the paths added to the index, and one warning per
/// path that could not be added.
#[derive(Debug, Clone)]
pub struct StageResult {
    pub staged: Vec<String>,
    pub warnings: Vec<String>,
}

impl Default for Settings {
    fn default() -> (r: Settings)
        ensures
            r.user_name@.len() == 0,
            r.user_email@.len() == 0,
            r.ssh_key_path is None,
            r.ssh_passphrase is None,
            r.theme@ == "dark"@,
            r.recent_repositories@.len() == 0,
            r.last_opened_repository is None,
    {
        Settings {
            user_name: String::new(),
            user_email: String::new(),
            ssh_key_path: None,
            ssh_passphrase: None,
            theme: String::from_str("dark"),
            recent_repositories: Vec::new(),
            last_opened_repository: None,
        }
    }
}

} // verus!
