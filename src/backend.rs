//! The boundary to the git backend (the `git2` crate) and to the few std
//! services the session needs. Every function here is taken on trust: its body
//! makes the backend call its comment names and converts arguments and results
//! to plain values.
//! Nothing here decides anything; the decisions live in the verified modules.
//! Results that depend on what is on disk carry no promise beyond their type.

use vstd::prelude::*;

verus! {

#[verifier::external_type_specification]
#[verifier::external_body]
pub struct ExRepository(git2::Repository);

#[verifier::external_type_specification]
#[verifier::external_body]
pub struct ExError(git2::Error);

#[verifier::external_type_specification]
#[verifier::external_body]
pub struct ExOid(git2::Oid);

#[verifier::external_type_specification]
#[verifier::external_body]
pub struct ExIndex(git2::Index);

#[verifier::external_type_specification]
#[verifier::external_body]
pub struct ExStatus(git2::Status);

#[verifier::external_type_specification]
#[verifier::external_body]
pub struct ExCommit<'a>(git2::Commit<'a>);

#[verifier::external_type_specification]
#[verifier::external_body]
pub struct ExTree<'a>(git2::Tree<'a>);

#[verifier::external_type_specification]
#[verifier::external_body]
pub struct ExSignature<'a>(git2::Signature<'a>);

#[verifier::external_type_specification]
#[verifier::external_body]
pub struct ExRevwalk<'a>(git2::Revwalk<'a>);

#[verifier::external_type_specification]
#[verifier::external_body]
pub struct ExDiff<'a>(git2::Diff<'a>);

#[verifier::external_type_specification]
#[verifier::external_body]
pub struct ExRemote<'a>(git2::Remote<'a>);

#[verifier::external_type_specification]
#[verifier::external_body]
pub struct ExAnnotatedCommit<'a>(git2::AnnotatedCommit<'a>);

/// A path or pathspec that the backend can turn into a C string: it holds no NUL.
pub open spec fn no_nul(s: Seq<char>) -> bool {
    forall|i: int| 0 <= i < s.len() ==> #[trigger] s[i] != '\0'
}

/// What the session reads of a reference.
pub struct RefFacts {
    pub is_branch: bool,
    pub name: Option<String>,
    pub shorthand: Option<String>,
    pub target: Option<git2::Oid>,
    pub symbolic_target: Option<String>,
}

/// The six status flags that the file classification reads.
#[derive(Clone, Copy, Debug, PartialEq, Eq, Structural)]
pub struct StatusFlags {
    pub index_new: bool,
    pub index_modified: bool,
    pub index_deleted: bool,
    pub wt_new: bool,
    pub wt_modified: bool,
    pub wt_deleted: bool,
}

/// One entry of a status scan.
pub struct StatusEntry {
    pub path: Option<String>,
    pub flags: StatusFlags,
}

/// What the history view reads of a commit.
pub struct CommitFacts {
    pub sha: String,
    pub message: Option<String>,
    pub author: Option<String>,
    pub email: Option<String>,
    pub time: i64,
    pub parents: Vec<String>,
}

/// One line of a printed patch: the file it belongs to, its origin marker and text.
pub struct PatchLine {
    pub path: Option<String>,
    pub origin: char,
    pub content: String,
}

/// The paths of the three stages of one index conflict, each when present.
pub struct ConflictStages {
    pub ancestor: Option<String>,
    pub our: Option<String>,
    pub their: Option<String>,
}

/// One stash entry as the backend lists it.
pub struct StashEntry {
    pub message: String,
    pub sha: String,
}

/// The two outcomes of a merge analysis that a pull acts on.
pub struct MergeFacts {
    pub up_to_date: bool,
    pub fast_forward: bool,
}

/// Relies on `git2::Repository::open`.
#[verifier::external_body]
pub(crate) fn open_repo(path: &str) -> (r: Result<git2::Repository, git2::Error>) {
    git2::Repository::open(path)
}

/// Relies on `Display` of `git2::Error`: the backend's message, as text.
#[verifier::external_body]
pub(crate) fn error_text(e: &git2::Error) -> (r: String) {
    e.to_string()
}

/// A lowercase hexadecimal digit.
pub open spec fn is_lower_hex(c: char) -> bool {
    ('0' <= c && c <= '9') || ('a' <= c && c <= 'f')
}

/// A hexadecimal digit of either case.
pub open spec fn is_hex(c: char) -> bool {
    is_lower_hex(c) || ('A' <= c && c <= 'F')
}

/// The text of an object id: forty lowercase hexadecimal digits.
pub open spec fn is_object_id(s: Seq<char>) -> bool {
    s.len() == 40 && forall|i: int| 0 <= i < 40 ==> is_lower_hex(#[trigger] s[i])
}

/// Relies on `Display` of `git2::Oid` (oid.rs), which writes the id with
/// `git_oid_tostr` into a buffer of `GIT_OID_HEXSZ + 1` bytes: the forty
/// lowercase hex digits of a SHA-1 id.
#[verifier::external_body]
pub(crate) fn oid_text(oid: &git2::Oid) -> (r: String)
    ensures
        is_object_id(r@),
{
    oid.to_string()
}

/// Relies on `git2::Oid::from_str`, which documents an error when the string
/// is empty, is longer than 40 characters or holds a non-hex character.
#[verifier::external_body]
pub(crate) fn parse_oid(sha: &str) -> (r: Result<git2::Oid, git2::Error>)
    ensures
        sha@.len() == 0 ==> r is Err,
        sha@.len() > 40 ==> r is Err,
        (exists|i: int| 0 <= i < sha@.len() && !is_hex(#[trigger] sha@[i])) ==> r is Err,
{
    git2::Oid::from_str(sha)
}

/// Relies on `git2::Reference::{is_branch, name, shorthand, target,
/// symbolic_target}` of the reference that `git2::Repository::head` resolves.
#[verifier::external_body]
pub(crate) fn head_ref(repo: &git2::Repository) -> (r: Result<RefFacts, git2::Error>) {
    repo.head().map(|h| RefFacts {
        is_branch: h.is_branch(),
        name: h.name().map(|s| s.to_string()),
        shorthand: h.shorthand().map(|s| s.to_string()),
        target: h.target(),
        symbolic_target: h.symbolic_target().map(|s| s.to_string()),
    })
}

/// Relies on `git2::Repository::find_reference`, read as in `head_ref`.
#[verifier::external_body]
pub(crate) fn find_ref(repo: &git2::Repository, name: &str) -> (r: Result<RefFacts, git2::Error>) {
    repo.find_reference(name).map(|h| RefFacts {
        is_branch: h.is_branch(),
        name: h.name().map(|s| s.to_string()),
        shorthand: h.shorthand().map(|s| s.to_string()),
        target: h.target(),
        symbolic_target: h.symbolic_target().map(|s| s.to_string()),
    })
}

/// Relies on `git2::Repository::branch_upstream_name`: the upstream ref of a
/// local branch, when the name is valid UTF-8.
#[verifier::external_body]
pub(crate) fn upstream_name(repo: &git2::Repository, refname: &str) -> (r: Result<
    Option<String>,
    git2::Error,
>) {
    repo.branch_upstream_name(refname).map(|b| b.as_str().map(|s| s.to_string()))
}

/// Relies on `git2::Repository::graph_ahead_behind`: (ahead, behind) of
/// `local` relative to `upstream`.
#[verifier::external_body]
pub(crate) fn ahead_behind(repo: &git2::Repository, local: git2::Oid, upstream: git2::Oid) -> (r: Result<
    (usize, usize),
    git2::Error,
>) {
    repo.graph_ahead_behind(local, upstream)
}

/// Relies on `git2::Repository::graph_descendant_of`: whether `commit` is a
/// strict descendant of `ancestor`.
#[verifier::external_body]
pub(crate) fn descendant_of(repo: &git2::Repository, commit: git2::Oid, ancestor: git2::Oid) -> (r:
    Result<bool, git2::Error>) {
    repo.graph_descendant_of(commit, ancestor)
}

/// Relies on the `is_index_new`, `is_index_modified`, `is_index_deleted`,
/// `is_wt_new`, `is_wt_modified` and `is_wt_deleted` tests of `git2::Status`.
#[verifier::external_body]
pub(crate) fn status_flags(s: &git2::Status) -> (r: StatusFlags) {
    StatusFlags {
        index_new: s.is_index_new(),
        index_modified: s.is_index_modified(),
        index_deleted: s.is_index_deleted(),
        wt_new: s.is_wt_new(),
        wt_modified: s.is_wt_modified(),
        wt_deleted: s.is_wt_deleted(),
    }
}

/// Relies on `git2::Repository::statuses` with `StatusOptions::include_untracked`
/// and `StatusOptions::recurse_untracked_dirs`: each entry's path and status.
#[verifier::external_body]
pub(crate) fn status_entries(repo: &git2::Repository, untracked: bool, recurse: bool) -> (r: Result<
    Vec<(Option<String>, git2::Status)>,
    git2::Error,
>) {
    let mut opts = git2::StatusOptions::new();
    opts.include_untracked(untracked).recurse_untracked_dirs(recurse);
    let statuses = repo.statuses(Some(&mut opts))?;
    Ok(statuses.iter().map(|e| (e.path().map(|p| p.to_string()), e.status())).collect())
}

/// Relies on `git2::Repository::workdir`, as lossy UTF-8 text.
#[verifier::external_body]
pub(crate) fn workdir(repo: &git2::Repository) -> (r: Option<String>) {
    repo.workdir().map(|p| p.to_string_lossy().to_string())
}

/// Relies on `git2::Repository::path` (the metadata directory), as lossy UTF-8 text.
#[verifier::external_body]
pub(crate) fn metadata_dir(repo: &git2::Repository) -> (r: String) {
    repo.path().to_string_lossy().to_string()
}

/// Relies on `git2::Repository::index`.
#[verifier::external_body]
pub(crate) fn open_index(repo: &git2::Repository) -> (r: Result<git2::Index, git2::Error>) {
    repo.index()
}

/// Relies on `git2::Index::add_path`: stages the working-tree content of `path`.
#[verifier::external_body]
pub(crate) fn index_add(index: &mut git2::Index, path: &str) -> (r: Result<(), git2::Error>) {
    index.add_path(std::path::Path::new(path))
}

/// Relies on `git2::Index::remove_path`.
#[verifier::external_body]
pub(crate) fn index_remove(index: &mut git2::Index, path: &str) -> (r: Result<(), git2::Error>) {
    index.remove_path(std::path::Path::new(path))
}

/// Relies on `git2::Index::write`: writes the index back to disk.
#[verifier::external_body]
pub(crate) fn index_write(index: &mut git2::Index) -> (r: Result<(), git2::Error>) {
    index.write()
}

/// Relies on `git2::Index::write_tree`: writes the index as a tree object.
#[verifier::external_body]
pub(crate) fn index_write_tree(index: &mut git2::Index) -> (r: Result<git2::Oid, git2::Error>) {
    index.write_tree()
}

/// Relies on `git2::Index::conflicts`: the stages of each conflict, paths as
/// lossy UTF-8 text.
#[verifier::external_body]
pub(crate) fn index_conflicts(index: &git2::Index) -> (r: Result<Vec<ConflictStages>, git2::Error>) {
    let text = |e: &Option<git2::IndexEntry>| e.as_ref().map(|e| String::from_utf8_lossy(&e.path).to_string());
    index.conflicts()?.map(|c| c.map(|c| ConflictStages {
        ancestor: text(&c.ancestor), our: text(&c.our), their: text(&c.their),
    })).collect()
}

/// Relies on `git2::Repository::reset_default`: resets the index entries of
/// `paths` to their state in `commit`.
#[verifier::external_body]
pub(crate) fn reset_paths(repo: &git2::Repository, commit: &git2::Commit, paths: &Vec<String>) -> (r:
    Result<(), git2::Error>) {
    repo.reset_default(Some(commit.as_object()), paths.iter().map(|s| s.as_str()))
}

/// Relies on `git2::Repository::reference`: creates (or, with `force`,
/// overwrites) the direct reference `name` pointing at `id`.
#[verifier::external_body]
pub(crate) fn write_reference(
    repo: &git2::Repository,
    name: &str,
    id: git2::Oid,
    force: bool,
    log_message: &str,
) -> (r: Result<(), git2::Error>) {
    repo.reference(name, id, force, log_message).map(|_| ())
}

/// Relies on `git2::Repository::find_tree`.
#[verifier::external_body]
pub(crate) fn find_tree<'a>(repo: &'a git2::Repository, id: git2::Oid) -> (r: Result<
    git2::Tree<'a>,
    git2::Error,
>) {
    repo.find_tree(id)
}

/// Relies on `git2::Repository::signature`: the identity configured for the repository.
#[verifier::external_body]
pub(crate) fn configured_signature(repo: &git2::Repository) -> (r: Result<
    git2::Signature<'static>,
    git2::Error,
>) {
    repo.signature()
}

/// Relies on `git2::Signature::now`: an identity stamped with the current time.
#[verifier::external_body]
pub(crate) fn signature_now(name: &str, email: &str) -> (r: Result<
    git2::Signature<'static>,
    git2::Error,
>) {
    git2::Signature::now(name, email)
}

/// Relies on `git2::Commit::amend`: rewrites `commit` with the given identity
/// (as author and committer), message and tree, and moves `update_ref`.
#[verifier::external_body]
pub(crate) fn amend_commit(
    commit: &git2::Commit,
    update_ref: &str,
    sig: &git2::Signature,
    message: &str,
    tree: &git2::Tree,
) -> (r: Result<git2::Oid, git2::Error>) {
    commit.amend(Some(update_ref), Some(sig), Some(sig), None, Some(message), Some(tree))
}

/// Relies on `git2::Repository::find_commit`.
#[verifier::external_body]
pub(crate) fn find_commit<'a>(repo: &'a git2::Repository, id: git2::Oid) -> (r: Result<
    git2::Commit<'a>,
    git2::Error,
>) {
    repo.find_commit(id)
}

/// Relies on `git2::Repository::cherrypick` with default options: applies the
/// change of `commit` to the index and working tree.
#[verifier::external_body]
pub(crate) fn apply_cherrypick(repo: &git2::Repository, commit: &git2::Commit) -> (r: Result<
    (),
    git2::Error,
>) {
    repo.cherrypick(commit, None)
}

/// Relies on `git2::Repository::revert` with default options: applies the
/// inverse of `commit` to the index and working tree.
#[verifier::external_body]
pub(crate) fn apply_revert(repo: &git2::Repository, commit: &git2::Commit) -> (r: Result<
    (),
    git2::Error,
>) {
    repo.revert(commit, None)
}

/// Relies on `git2::Repository::commit`: records `tree` with the given identity
/// (as author and committer), message and at most one parent, and moves `update_ref`.
#[verifier::external_body]
pub(crate) fn write_commit(
    repo: &git2::Repository,
    update_ref: &str,
    sig: &git2::Signature,
    message: &str,
    tree: &git2::Tree,
    parent: Option<&git2::Commit>,
) -> (r: Result<git2::Oid, git2::Error>) {
    match parent {
        Some(p) => repo.commit(Some(update_ref), sig, sig, message, tree, &[p]),
        None => repo.commit(Some(update_ref), sig, sig, message, tree, &[]),
    }
}

/// Relies on `git2::Repository::cleanup_state`: clears an in-progress
/// cherry-pick, revert or merge.
#[verifier::external_body]
pub(crate) fn cleanup_state(repo: &git2::Repository) -> (r: Result<(), git2::Error>) {
    repo.cleanup_state()
}

/// Relies on `git2::Repository::checkout_head` with a forced
/// `git2::build::CheckoutBuilder`, limited to `path` when one is given.
/// `CheckoutBuilder::path` panics on a NUL, hence the requirement.
#[verifier::external_body]
pub(crate) fn checkout_head_forced(repo: &git2::Repository, path: Option<&str>) -> (r: Result<
    (),
    git2::Error,
>)
    requires
        path matches Some(p) ==> no_nul(p@),
{
    let mut opts = git2::build::CheckoutBuilder::new();
    opts.force();
    if let Some(p) = path {
        opts.path(p);
    }
    repo.checkout_head(Some(&mut opts))
}

/// Relies on `git2::Repository::branch`: creates branch `name` at `commit`,
/// overwriting an existing one only with `force`.
#[verifier::external_body]
pub(crate) fn create_branch_at(
    repo: &git2::Repository,
    name: &str,
    commit: &git2::Commit,
    force: bool,
) -> (r: Result<(), git2::Error>) {
    repo.branch(name, commit, force).map(|_| ())
}

/// Relies on `git2::Repository::checkout_tree` with default options: updates
/// the working tree and index to the tree of `commit`.
#[verifier::external_body]
pub(crate) fn checkout_commit_tree(repo: &git2::Repository, commit: &git2::Commit) -> (r: Result<
    (),
    git2::Error,
>) {
    repo.checkout_tree(commit.as_object(), None)
}

/// Relies on `git2::Repository::set_head`: points HEAD at `refname`.
#[verifier::external_body]
pub(crate) fn set_head(repo: &git2::Repository, refname: &str) -> (r: Result<(), git2::Error>) {
    repo.set_head(refname)
}

/// Relies on `git2::Repository::revwalk`: a walk with the default ordering.
#[verifier::external_body]
pub(crate) fn new_revwalk<'a>(repo: &'a git2::Repository) -> (r: Result<
    git2::Revwalk<'a>,
    git2::Error,
>) {
    repo.revwalk()
}

/// Relies on `git2::Revwalk::set_sorting`, with `Sort::TOPOLOGICAL` and
/// `Sort::TIME` as asked.
#[verifier::external_body]
pub(crate) fn revwalk_sort(walk: &mut git2::Revwalk, topological: bool, time: bool) -> (r: Result<
    (),
    git2::Error,
>) {
    let mut mode = git2::Sort::NONE;
    mode.set(git2::Sort::TOPOLOGICAL, topological);
    mode.set(git2::Sort::TIME, time);
    walk.set_sorting(mode)
}

/// Relies on `git2::Revwalk::push_head`: starts the walk at HEAD.
#[verifier::external_body]
pub(crate) fn revwalk_push_head(walk: &mut git2::Revwalk) -> (r: Result<(), git2::Error>) {
    walk.push_head()
}

/// Relies on `Iterator::next` of `git2::Revwalk`.
#[verifier::external_body]
pub(crate) fn revwalk_next(walk: &mut git2::Revwalk) -> (r: Option<Result<git2::Oid, git2::Error>>) {
    walk.next()
}

/// Relies on `git2::Commit::{id, message, author, time, parent_ids}`.
#[verifier::external_body]
pub(crate) fn commit_facts(commit: &git2::Commit) -> (r: CommitFacts) {
    let author = commit.author();
    CommitFacts {
        sha: commit.id().to_string(),
        message: commit.message().map(|s| s.to_string()),
        author: author.name().map(|s| s.to_string()),
        email: author.email().map(|s| s.to_string()),
        time: commit.time().seconds(),
        parents: commit.parent_ids().map(|id| id.to_string()).collect(),
    }
}

/// Relies on `git2::Commit::tree`.
#[verifier::external_body]
pub(crate) fn commit_tree<'a>(commit: &git2::Commit<'a>) -> (r: Result<git2::Tree<'a>, git2::Error>) {
    commit.tree()
}

/// Relies on `git2::Commit::parent_count`.
#[verifier::external_body]
pub(crate) fn parent_count(commit: &git2::Commit) -> (r: usize) {
    commit.parent_count()
}

/// Relies on `git2::Commit::parent`.
#[verifier::external_body]
pub(crate) fn commit_parent<'a>(commit: &git2::Commit<'a>, i: usize) -> (r: Result<
    git2::Commit<'a>,
    git2::Error,
>) {
    commit.parent(i)
}

/// Relies on `git2::Repository::diff_tree_to_tree` with default options.
#[verifier::external_body]
pub(crate) fn diff_trees<'a>(
    repo: &'a git2::Repository,
    old_tree: Option<&git2::Tree>,
    new_tree: &git2::Tree,
) -> (r: Result<git2::Diff<'a>, git2::Error>) {
    repo.diff_tree_to_tree(old_tree, Some(new_tree), Some(&mut git2::DiffOptions::new()))
}

/// Relies on `git2::Repository::diff_tree_to_workdir_with_index`, limited to
/// `pathspec` when one is given. `DiffOptions::pathspec` panics on a NUL.
#[verifier::external_body]
pub(crate) fn diff_tree_to_workdir<'a>(
    repo: &'a git2::Repository,
    tree: &git2::Tree,
    pathspec: Option<&str>,
) -> (r: Result<git2::Diff<'a>, git2::Error>)
    requires
        pathspec matches Some(p) ==> no_nul(p@),
{
    let mut opts = git2::DiffOptions::new();
    if let Some(p) = pathspec {
        opts.pathspec(p);
    }
    repo.diff_tree_to_workdir_with_index(Some(tree), Some(&mut opts))
}

/// Relies on `git2::Repository::diff_index_to_workdir` (the repository's own
/// index), limited to `pathspec` when one is given. `DiffOptions::pathspec`
/// panics on a NUL.
#[verifier::external_body]
pub(crate) fn diff_index_to_workdir<'a>(repo: &'a git2::Repository, pathspec: Option<&str>) -> (r:
    Result<git2::Diff<'a>, git2::Error>)
    requires
        pathspec matches Some(p) ==> no_nul(p@),
{
    let mut opts = git2::DiffOptions::new();
    if let Some(p) = pathspec {
        opts.pathspec(p);
    }
    repo.diff_index_to_workdir(None, Some(&mut opts))
}

/// Relies on `git2::Diff::print` in patch format: each printed line with the
/// new-side path of its file, its `origin` and its content as lossy UTF-8.
#[verifier::external_body]
pub(crate) fn patch_lines(diff: &git2::Diff) -> (r: Result<Vec<PatchLine>, git2::Error>) {
    let mut lines = Vec::new();
    diff.print(git2::DiffFormat::Patch, |delta, _hunk, line| {
        lines.push(PatchLine {
            path: delta.new_file().path().and_then(|p| p.to_str()).map(|s| s.to_string()),
            origin: line.origin(),
            content: String::from_utf8_lossy(line.content()).to_string(),
        });
        true
    })?;
    Ok(lines)
}

/// Relies on `git2::Repository::branches` for local branches and on
/// `git2::Branch::name`.
#[verifier::external_body]
pub(crate) fn local_branch_names(repo: &git2::Repository) -> (r: Result<
    Vec<Option<String>>,
    git2::Error,
>) {
    repo.branches(Some(git2::BranchType::Local))?
        .map(|b| b.and_then(|(b, _)| b.name().map(|n| n.map(|s| s.to_string()))))
        .collect()
}

/// Relies on `git2::Repository::stash_save`, with `StashFlags::INCLUDE_UNTRACKED`
/// when `include_untracked` holds.
#[verifier::external_body]
pub(crate) fn save_stash(
    repo: &mut git2::Repository,
    sig: &git2::Signature,
    message: &str,
    include_untracked: bool,
) -> (r: Result<(), git2::Error>) {
    let flags = if include_untracked { Some(git2::StashFlags::INCLUDE_UNTRACKED) } else { None };
    repo.stash_save(sig, message, flags).map(|_| ())
}

/// Relies on `git2::Repository::stash_pop` with default options.
#[verifier::external_body]
pub(crate) fn pop_stash(repo: &mut git2::Repository, index: usize) -> (r: Result<(), git2::Error>) {
    repo.stash_pop(index, None)
}

/// Relies on `git2::Repository::reflog` of `refs/stash` (an empty log when
/// there is no stash), rather than `stash_foreach`, whose callback unwraps the
/// UTF-8 conversion of each message and so cannot list a stash whose message
/// is not valid UTF-8; read through `ReflogEntry::message_bytes` (as lossy
/// UTF-8) and `ReflogEntry::id_new`: each stash's message and commit id, most
/// recent first.
#[verifier::external_body]
pub(crate) fn stash_entries(repo: &git2::Repository) -> (r: Result<Vec<StashEntry>, git2::Error>) {
    let log = repo.reflog("refs/stash")?;
    Ok(log.iter().map(|e| StashEntry {
        message: String::from_utf8_lossy(e.message_bytes().unwrap_or(&[])).to_string(),
        sha: e.id_new().to_string(),
    }).collect())
}

/// Relies on `git2::Error::code`: whether the error is `ErrorCode::UnbornBranch`,
/// the code of HEAD naming a branch that has no commit yet.
#[verifier::external_body]
pub(crate) fn is_unborn_error(e: &git2::Error) -> (r: bool) {
    e.code() == git2::ErrorCode::UnbornBranch
}

/// Relies on `git2::Repository::find_remote`.
#[verifier::external_body]
pub(crate) fn find_remote<'a>(repo: &'a git2::Repository, name: &str) -> (r: Result<
    git2::Remote<'a>,
    git2::Error,
>) {
    repo.find_remote(name)
}

/// Relies on `git2::Remote::url`: the URL, when it is valid UTF-8.
#[verifier::external_body]
pub(crate) fn remote_url(remote: &git2::Remote) -> (r: Option<String>) {
    remote.url().map(|s| s.to_string())
}

/// Relies on `git2::Repository::remote_set_url`.
#[verifier::external_body]
pub(crate) fn set_remote_url(repo: &git2::Repository, name: &str, url: &str) -> (r: Result<
    (),
    git2::Error,
>) {
    repo.remote_set_url(name, url)
}

/// Relies on `git2::Repository::find_annotated_commit`.
#[verifier::external_body]
pub(crate) fn annotated_commit<'a>(repo: &'a git2::Repository, id: git2::Oid) -> (r: Result<
    git2::AnnotatedCommit<'a>,
    git2::Error,
>) {
    repo.find_annotated_commit(id)
}

/// Relies on `git2::Repository::merge_analysis` of one commit against HEAD,
/// read through `MergeAnalysis::is_up_to_date` and `is_fast_forward`.
#[verifier::external_body]
pub(crate) fn merge_analysis(repo: &git2::Repository, theirs: &git2::AnnotatedCommit) -> (r: Result<
    MergeFacts,
    git2::Error,
>) {
    let (analysis, _) = repo.merge_analysis(&[theirs])?;
    Ok(MergeFacts { up_to_date: analysis.is_up_to_date(), fast_forward: analysis.is_fast_forward() })
}

/// The text of `rel` joined under `dir` by `Path::join`.
pub uninterp spec fn joined_path(dir: Seq<char>, rel: Seq<char>) -> Seq<char>;

/// Relies on `std::path::Path::join`, as lossy UTF-8 text: a function of the
/// two paths alone.
#[verifier::external_body]
pub(crate) fn join_path(dir: &str, rel: &str) -> (r: String)
    ensures
        r@ == joined_path(dir@, rel@),
{
    std::path::Path::new(dir).join(rel).to_string_lossy().to_string()
}

/// Relies on `std::path::Path::exists`.
#[verifier::external_body]
pub(crate) fn path_exists(path: &str) -> (r: bool) {
    std::path::Path::new(path).exists()
}

/// Relies on `std::time::SystemTime::now`: seconds since the Unix epoch, when
/// the clock is not before it.
#[verifier::external_body]
pub(crate) fn unix_now() -> (r: Option<u64>) {
    std::time::SystemTime::now().duration_since(std::time::UNIX_EPOCH).ok().map(|d| d.as_secs())
}

} // verus!
