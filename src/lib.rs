//! Session layer over a git repository: safety snapshots before destructive
//! operations, derived repository state, the mutating operation set, the
//! change-notification debounce machine and the recent-repository list.

pub mod backend;
pub mod diff;
pub mod error;
pub mod history;
pub mod info;
pub mod models;
pub mod ops;
pub mod recent;
pub mod remote;
pub mod session;
pub mod snapshot;
pub mod status;
pub mod text;
pub mod validate;
pub mod watch;

pub use diff::{get_commit_diff, get_diff};
pub use error::AppError;
pub use history::get_commit_history;
pub use info::get_repository_info;
pub use models::{
    BranchInfo, BranchOptions, CloneOptions, CommitInfo, CommitOptions, ConflictInfo, DiffInfo,
    FileStatus, RepositoryInfo, Settings, StageResult, StashInfo, StashOptions,
};
pub use ops::{
    amend_last_commit, checkout_branch, cherry_pick, create_branch, create_commit,
    create_remote_callbacks, discard_all_changes, discard_changes, get_branches, get_conflicts,
    get_remote_url, open_repository, resolve_conflict, revert_commit, set_remote_url, stage_files,
    stash_list, stash_pop, stash_save, unstage_files,
};
pub use session::Session;
pub use snapshot::create_safety_ref;
pub use status::get_status;
pub use validate::is_safe_git_arg;
