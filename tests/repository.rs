use github_desktop_clone::error::AppError;
use github_desktop_clone::models::{CommitOptions, Settings};
use github_desktop_clone::ops::{finish_conflict_resolution, fast_forward_to_fetched, PickState, PullStep};
use github_desktop_clone::session::Session;
use github_desktop_clone::{
    amend_last_commit, checkout_branch, cherry_pick, create_branch, create_commit,
    discard_all_changes, discard_changes, get_branches, get_commit_diff, get_commit_history,
    get_conflicts, get_diff, get_repository_info, get_status, resolve_conflict, revert_commit,
    stage_files, stash_list, stash_pop, stash_save, unstage_files,
};
use std::path::Path;

fn init_repo() -> (tempfile::TempDir, git2::Repository) {
    let dir = tempfile::tempdir().unwrap();
    let repo = git2::Repository::init(dir.path()).unwrap();
    {
        let mut cfg = repo.config().unwrap();
        cfg.set_str("user.name", "Test User").unwrap();
        cfg.set_str("user.email", "test@example.com").unwrap();
    }
    (dir, repo)
}

fn write(root: &Path, name: &str, content: &str) {
    let mut file = tempfile::NamedTempFile::new_in(root).unwrap();
    std::io::Write::write_all(&mut file, content.as_bytes()).unwrap();
    file.persist(root.join(name)).unwrap();
}

fn remove(root: &Path, name: &str) {
    drop(tempfile::TempPath::from_path(root.join(name)));
}

fn make_dir(root: &Path, name: &str) {
    tempfile::Builder::new().prefix(name).rand_bytes(0).tempdir_in(root).unwrap().keep();
}

/// Whether the file holds exactly `content`, compared by blob hash.
fn holds(root: &Path, name: &str, content: &str) -> bool {
    let on_disk = git2::Oid::hash_file(git2::ObjectType::Blob, root.join(name)).unwrap();
    on_disk == git2::Oid::hash_object(git2::ObjectType::Blob, content.as_bytes()).unwrap()
}

fn add_all(repo: &git2::Repository) {
    let mut index = repo.index().unwrap();
    index.add_all(["."].iter(), git2::IndexAddOption::DEFAULT, None).unwrap();
    index.write().unwrap();
}

fn head_sha(repo: &git2::Repository) -> String {
    repo.head().unwrap().peel_to_commit().unwrap().id().to_string()
}

fn head_message(repo: &git2::Repository) -> String {
    repo.head().unwrap().peel_to_commit().unwrap().message().unwrap().to_string()
}

fn branch_name(repo: &git2::Repository) -> String {
    repo.head().unwrap().shorthand().unwrap().to_string()
}

fn safety_targets(repo: &git2::Repository, label: &str) -> Vec<String> {
    repo.references_glob(&format!("refs/safety/{}/*", label))
        .unwrap()
        .map(|r| r.unwrap().target().unwrap().to_string())
        .collect()
}

#[test]
fn test_amend_commit() {
    let (dir, repo) = init_repo();
    write(dir.path(), "file.txt", "v1");
    add_all(&repo);
    create_commit(&repo, "Initial commit").unwrap();

    let result = amend_last_commit(&repo, "Amended message");
    assert!(result.is_ok());
    assert_eq!(head_message(&repo), "Amended message");
}

#[test]
fn test_discard_all_changes() {
    let (dir, repo) = init_repo();
    write(dir.path(), "file.txt", "v1");
    add_all(&repo);
    create_commit(&repo, "Init").unwrap();

    write(dir.path(), "file.txt", "v2");
    discard_all_changes(&repo).unwrap();
    assert!(holds(dir.path(), "file.txt", "v1"));
}

fn clone_pair() -> (tempfile::TempDir, git2::Repository, git2::Repository) {
    let root = tempfile::tempdir().unwrap();
    let origin_path = root.path().join("origin");
    let local_path = root.path().join("local");
    make_dir(root.path(), "origin");
    let origin = git2::Repository::init(&origin_path).unwrap();
    {
        let mut cfg = origin.config().unwrap();
        cfg.set_str("user.name", "Test User").unwrap();
        cfg.set_str("user.email", "test@example.com").unwrap();
    }
    write(&origin_path, "base.txt", "base");
    add_all(&origin);
    create_commit(&origin, "Initial commit").unwrap();
    create_branch(&origin, "feature").unwrap();
    let local = git2::Repository::clone(origin_path.to_str().unwrap(), &local_path).unwrap();
    {
        let mut cfg = local.config().unwrap();
        cfg.set_str("user.name", "Test User").unwrap();
        cfg.set_str("user.email", "test@example.com").unwrap();
    }
    (root, origin, local)
}

fn fetch_feature(local: &git2::Repository) {
    local.find_remote("origin").unwrap().fetch(&["feature"], None, None).unwrap();
}

#[test]
fn test_pull_changes() {
    let (root, origin, local) = clone_pair();
    assert_eq!(branch_name(&local), "feature");
    write(&root.path().join("origin"), "new_file.txt", "content");
    add_all(&origin);
    create_commit(&origin, "Feature commit").unwrap();

    fetch_feature(&local);
    let result = fast_forward_to_fetched(&local);
    assert!(result.is_ok(), "pull failed: {:?}", result.err());
    assert_eq!(result.unwrap(), PullStep::FastForward);
    assert_eq!(head_message(&local).trim(), "Feature commit");
    assert_eq!(head_sha(&local), head_sha(&origin));
    assert!(holds(&root.path().join("local"), "new_file.txt", "content"));
    let info = get_repository_info(&local).unwrap();
    assert_eq!(info.behind, 0);
}

#[test]
fn pull_when_up_to_date_changes_nothing() {
    let (_root, _origin, local) = clone_pair();
    let before = head_sha(&local);
    fetch_feature(&local);
    assert_eq!(fast_forward_to_fetched(&local).unwrap(), PullStep::UpToDate);
    assert_eq!(head_sha(&local), before);
}

#[test]
fn pull_on_diverged_history_reports_and_keeps_head() {
    let (root, origin, local) = clone_pair();
    write(&root.path().join("origin"), "theirs.txt", "t");
    add_all(&origin);
    create_commit(&origin, "Their commit").unwrap();
    write(&root.path().join("local"), "mine.txt", "m");
    add_all(&local);
    create_commit(&local, "My commit").unwrap();
    let before = head_sha(&local);

    fetch_feature(&local);
    let result = fast_forward_to_fetched(&local);
    assert!(matches!(result, Err(AppError::NonFastForward(_))));
    assert_eq!(head_sha(&local), before);
}

#[test]
fn history_marks_pushed_commits() {
    let (root, _origin, local) = clone_pair();
    let pushed_sha = head_sha(&local);
    write(&root.path().join("local"), "ahead.txt", "a");
    add_all(&local);
    let ahead_sha = create_commit(&local, "Ahead commit").unwrap();

    let history = get_commit_history(&local, 10).unwrap();
    assert_eq!(history.len(), 2);
    assert_eq!(history[0].sha, ahead_sha);
    assert!(!history[0].is_pushed);
    assert_eq!(history[0].message, "Ahead commit");
    assert_eq!(history[0].author, "Test User");
    assert_eq!(history[0].parents, vec![pushed_sha.clone()]);
    assert_eq!(history[1].sha, pushed_sha);
    assert!(history[1].is_pushed);

    let limited = get_commit_history(&local, 1).unwrap();
    assert_eq!(limited.len(), 1);

    let info = get_repository_info(&local).unwrap();
    assert_eq!(info.current_branch, "feature");
    assert_eq!((info.ahead, info.behind), (1, 0));
}

#[test]
fn fresh_repository_info() {
    let (dir, repo) = init_repo();
    let info = get_repository_info(&repo).unwrap();
    let symbolic = repo.find_reference("HEAD").unwrap().symbolic_target().unwrap().to_string();
    assert_eq!(info.current_branch, symbolic.trim_start_matches("refs/heads/"));
    assert_eq!(info.ahead, 0);
    assert_eq!(info.behind, 0);
    assert!(!info.is_dirty);
    assert!(!info.path.ends_with('/'));

    write(dir.path(), "untracked.txt", "x");
    let info = get_repository_info(&repo).unwrap();
    assert!(info.is_dirty);
}

#[test]
fn status_classifies_changes() {
    let (dir, repo) = init_repo();
    write(dir.path(), "tracked.txt", "one");
    add_all(&repo);
    create_commit(&repo, "Init").unwrap();
    write(dir.path(), "tracked.txt", "two");
    write(dir.path(), "new.txt", "n");
    make_dir(dir.path(), "sub");
    write(&dir.path().join("sub"), "deep.txt", "d");

    let mut status = get_status(&repo).unwrap();
    status.sort_by(|a, b| a.path.cmp(&b.path));
    let seen: Vec<(String, String, bool)> =
        status.iter().map(|s| (s.path.clone(), s.status.clone(), s.staged)).collect();
    assert_eq!(
        seen,
        vec![
            ("new.txt".to_string(), "untracked".to_string(), false),
            ("sub/deep.txt".to_string(), "untracked".to_string(), false),
            ("tracked.txt".to_string(), "modified".to_string(), false),
        ]
    );

    let staged = stage_files(&repo, vec!["new.txt".to_string()]).unwrap();
    assert_eq!(staged.staged, vec!["new.txt".to_string()]);
    let status = get_status(&repo).unwrap();
    let new = status.iter().find(|s| s.path == "new.txt").unwrap();
    assert_eq!((new.status.as_str(), new.staged), ("added", true));

    unstage_files(&repo, vec!["new.txt".to_string()]).unwrap();
    let status = get_status(&repo).unwrap();
    let new = status.iter().find(|s| s.path == "new.txt").unwrap();
    assert_eq!((new.status.as_str(), new.staged), ("untracked", false));
}

#[test]
fn staging_a_deleted_path_warns_and_removes_it() {
    let (dir, repo) = init_repo();
    write(dir.path(), "gone.txt", "x");
    add_all(&repo);
    create_commit(&repo, "Init").unwrap();
    remove(dir.path(), "gone.txt");

    let result = stage_files(&repo, vec!["gone.txt".to_string()]).unwrap();
    assert!(result.staged.is_empty());
    assert_eq!(result.warnings, vec!["Skipped 'gone.txt': file not found (removed from index)".to_string()]);
    let status = get_status(&repo).unwrap();
    let gone = status.iter().find(|s| s.path == "gone.txt").unwrap();
    assert_eq!((gone.status.as_str(), gone.staged), ("deleted", true));
}

#[test]
fn committing_only_deleted_paths_is_refused() {
    let (dir, repo) = init_repo();
    write(dir.path(), "gone.txt", "x");
    add_all(&repo);
    create_commit(&repo, "Init").unwrap();
    let before = head_sha(&repo);
    remove(dir.path(), "gone.txt");

    let mut session = Session::new(Settings::default());
    session.open_repository(dir.path().to_str().unwrap()).unwrap();
    let result = session.create_commit(CommitOptions {
        message: "Should not happen".to_string(),
        files: vec!["gone.txt".to_string()],
    });
    assert!(matches!(result, Err(AppError::Precondition(_))));
    assert_eq!(head_sha(&repo), before);
}

#[test]
fn destructive_operations_leave_safety_refs_at_prior_head() {
    let (dir, repo) = init_repo();
    write(dir.path(), "file.txt", "v1");
    add_all(&repo);
    create_commit(&repo, "Init").unwrap();
    let before_amend = head_sha(&repo);
    amend_last_commit(&repo, "Amended").unwrap();
    assert_eq!(safety_targets(&repo, "amend"), vec![before_amend]);

    let before_discard = head_sha(&repo);
    write(dir.path(), "file.txt", "dirty");
    discard_all_changes(&repo).unwrap();
    assert_eq!(safety_targets(&repo, "discard-all"), vec![before_discard.clone()]);

    // a second snapshot within the same second is added, not overwritten
    discard_all_changes(&repo).unwrap();
    assert_eq!(safety_targets(&repo, "discard-all").len(), 2);

    write(dir.path(), "file.txt", "v2");
    add_all(&repo);
    let second = create_commit(&repo, "Second").unwrap();
    let before_revert = head_sha(&repo);
    revert_commit(&repo, &second).unwrap();
    assert_eq!(safety_targets(&repo, "revert"), vec![before_revert]);
    assert_eq!(head_message(&repo), "Revert \"Second\"");
    assert!(holds(dir.path(), "file.txt", "v1"));
}

#[test]
fn snapshot_on_empty_repository_is_a_no_op() {
    let (_dir, repo) = init_repo();
    github_desktop_clone::create_safety_ref(&repo, "amend").unwrap();
    assert!(safety_targets(&repo, "amend").is_empty());
}

#[test]
fn session_journal_and_missing_repository() {
    let mut session = Session::new(Settings::default());
    assert!(matches!(session.get_repository_status(), Err(AppError::Precondition(s)) if s == "No repository open"));
    assert!(matches!(session.amend_commit("x"), Err(AppError::Precondition(_))));
    assert!(session.get_current_repo_info().unwrap().is_none());

    let (dir, repo) = init_repo();
    write(dir.path(), "file.txt", "v1");
    add_all(&repo);
    create_commit(&repo, "Init").unwrap();
    let path = dir.path().to_str().unwrap().to_string();
    session.open_repository(&path).unwrap();
    assert_eq!(session.settings.recent_repositories, vec![path.clone()]);
    session.open_repository(&path).unwrap();
    assert_eq!(session.settings.recent_repositories, vec![path.clone()]);
    let before = head_sha(&repo);
    session.amend_commit("Amended in session").unwrap();
    assert_eq!(safety_targets(&repo, "amend"), vec![before]);
    assert_eq!(head_message(&repo), "Amended in session");
}

#[test]
fn opening_a_missing_path_prunes_it() {
    let mut settings = Settings::default();
    settings.recent_repositories = vec!["/definitely/not/here".to_string(), "/other".to_string()];
    settings.last_opened_repository = Some("/definitely/not/here".to_string());
    let mut session = Session::new(settings);
    let result = session.open_repository("/definitely/not/here");
    assert!(matches!(result, Err(AppError::Git(s)) if s == "Repository path not found. Removed from list."));
    assert_eq!(session.settings.recent_repositories, vec!["/other".to_string()]);
    assert!(session.settings.last_opened_repository.is_none());

    let infos = session.get_repositories_info(vec!["/other".to_string()]);
    assert!(infos.is_empty());
    assert!(session.settings.recent_repositories.is_empty());
}

#[test]
fn cherry_pick_conflict_then_resolution() {
    let (dir, repo) = init_repo();
    write(dir.path(), "a.txt", "base\n");
    add_all(&repo);
    create_commit(&repo, "Base").unwrap();
    let main = branch_name(&repo);

    create_branch(&repo, "other").unwrap();
    write(dir.path(), "a.txt", "theirs\n");
    add_all(&repo);
    let theirs = create_commit(&repo, "Theirs").unwrap();

    checkout_branch(&repo, &main).unwrap();
    assert!(holds(dir.path(), "a.txt", "base\n"));
    write(dir.path(), "a.txt", "mine\n");
    add_all(&repo);
    create_commit(&repo, "Mine").unwrap();

    let result = cherry_pick(&repo, &theirs);
    assert!(matches!(result, Err(AppError::Conflict(_))));
    let conflicts = get_conflicts(&repo).unwrap();
    assert_eq!(conflicts.len(), 1);
    assert_eq!(conflicts[0].path, "a.txt");
    assert_eq!(conflicts[0].our_status, "modified");
    assert_eq!(conflicts[0].their_status, "modified");
    assert!(matches!(finish_conflict_resolution(&repo), Err(AppError::Conflict(_))));

    write(dir.path(), "a.txt", "resolved\n");
    resolve_conflict(&repo, "a.txt", true).unwrap();
    assert_eq!(finish_conflict_resolution(&repo).unwrap(), PickState::Idle);
    assert!(get_conflicts(&repo).unwrap().is_empty());
}

#[test]
fn cherry_pick_without_conflict_commits() {
    let (dir, repo) = init_repo();
    write(dir.path(), "a.txt", "base\n");
    add_all(&repo);
    create_commit(&repo, "Base").unwrap();
    let main = branch_name(&repo);
    create_branch(&repo, "other").unwrap();
    write(dir.path(), "b.txt", "b\n");
    add_all(&repo);
    let theirs = create_commit(&repo, "Add b").unwrap();
    checkout_branch(&repo, &main).unwrap();
    cherry_pick(&repo, &theirs).unwrap();
    assert_eq!(head_message(&repo), "Add b");
    assert!(holds(dir.path(), "b.txt", "b\n"));
    assert_eq!(safety_targets(&repo, "cherry-pick").len(), 1);
}

#[test]
fn branches_and_invalid_names() {
    let (dir, repo) = init_repo();
    write(dir.path(), "a.txt", "a");
    add_all(&repo);
    create_commit(&repo, "Base").unwrap();
    create_branch(&repo, "topic").unwrap();
    let branches = get_branches(&repo).unwrap();
    let topic = branches.iter().find(|b| b.name == "topic").unwrap();
    assert!(topic.is_current);
    assert_eq!(branches.iter().filter(|b| b.is_current).count(), 1);
    assert!(matches!(create_branch(&repo, "-x"), Err(AppError::Precondition(s)) if s == "Invalid branch name"));
    assert!(matches!(checkout_branch(&repo, "a b"), Err(AppError::Precondition(_))));
}

#[test]
fn diffs_of_commit_and_working_tree() {
    let (dir, repo) = init_repo();
    write(dir.path(), "a.txt", "one\ntwo\n");
    add_all(&repo);
    let first = create_commit(&repo, "First").unwrap();
    let root_diff = get_commit_diff(&repo, &first).unwrap();
    assert_eq!(root_diff.len(), 1);
    assert_eq!(root_diff[0].path, "a.txt");
    assert_eq!((root_diff[0].additions, root_diff[0].deletions), (2, 0));

    write(dir.path(), "a.txt", "one\nTWO\n");
    let wt = get_diff(&repo, None).unwrap();
    assert_eq!(wt.len(), 1);
    assert_eq!((wt[0].additions, wt[0].deletions), (1, 1));
    assert!(wt[0].diff_text.contains("-two\n"));
    assert!(wt[0].diff_text.contains("+TWO\n"));
    assert!(get_diff(&repo, Some("other.txt")).unwrap().is_empty());
    assert!(matches!(get_diff(&repo, Some("a\0b")), Err(AppError::Precondition(_))));
}

#[test]
fn discarding_one_file() {
    let (dir, repo) = init_repo();
    write(dir.path(), "a.txt", "a");
    add_all(&repo);
    create_commit(&repo, "Base").unwrap();
    write(dir.path(), "a.txt", "changed");
    assert_eq!(discard_changes(&repo, "a.txt").unwrap(), None);
    assert!(holds(dir.path(), "a.txt", "a"));
}

#[test]
fn stash_round_trip() {
    let (dir, mut repo) = init_repo();
    write(dir.path(), "a.txt", "a");
    add_all(&repo);
    create_commit(&repo, "Base").unwrap();
    write(dir.path(), "a.txt", "changed");
    write(dir.path(), "new.txt", "untracked");
    stash_save(&mut repo, Some("work in progress")).unwrap();
    assert!(holds(dir.path(), "a.txt", "a"));
    assert!(!dir.path().join("new.txt").exists());
    let list = stash_list(&mut repo).unwrap();
    assert_eq!(list.len(), 1);
    assert_eq!(list[0].index, 0);
    assert!(list[0].message.contains("work in progress"));
    stash_pop(&mut repo, 0).unwrap();
    assert!(holds(dir.path(), "a.txt", "changed"));
    assert!(holds(dir.path(), "new.txt", "untracked"));
    assert!(stash_list(&mut repo).unwrap().is_empty());
}

#[test]
fn remote_urls() {
    let (_dir, repo) = init_repo();
    repo.remote("origin", "https://example.com/a.git").unwrap();
    assert_eq!(github_desktop_clone::get_remote_url(&repo, "origin").unwrap(), "https://example.com/a.git");
    github_desktop_clone::set_remote_url(&repo, "origin", "https://example.com/b.git").unwrap();
    assert_eq!(github_desktop_clone::get_remote_url(&repo, "origin").unwrap(), "https://example.com/b.git");
    assert!(matches!(github_desktop_clone::get_remote_url(&repo, "nope"), Err(AppError::Git(_))));
}

#[test]
fn pull_fast_forwards_several_commits() {
    let (root, origin, local) = clone_pair();
    for i in 0..3 {
        write(&root.path().join("origin"), &format!("f{}.txt", i), "x");
        add_all(&origin);
        create_commit(&origin, &format!("Commit {}", i)).unwrap();
    }
    fetch_feature(&local);
    let before = get_repository_info(&local).unwrap();
    assert_eq!(before.behind, 3);
    assert_eq!(fast_forward_to_fetched(&local).unwrap(), PullStep::FastForward);
    assert_eq!(head_sha(&local), head_sha(&origin));
    let after = get_repository_info(&local).unwrap();
    assert_eq!((after.ahead, after.behind), (0, 0));
}

#[test]
fn session_staging_only_missing_paths_fails() {
    let (dir, repo) = init_repo();
    write(dir.path(), "gone.txt", "x");
    add_all(&repo);
    create_commit(&repo, "Init").unwrap();
    remove(dir.path(), "gone.txt");
    let mut session = Session::new(Settings::default());
    session.open_repository(dir.path().to_str().unwrap()).unwrap();
    match session.stage_files(vec!["gone.txt".to_string()]) {
        Err(AppError::Precondition(s)) => assert_eq!(
            s,
            "No files could be staged: Skipped 'gone.txt': file not found (removed from index)"
        ),
        other => panic!("unexpected {:?}", other),
    }
    write(dir.path(), "new.txt", "n");
    let ok = session.stage_files(vec!["new.txt".to_string(), "missing.txt".to_string()]).unwrap();
    assert_eq!(ok.staged, vec!["new.txt".to_string()]);
    assert_eq!(ok.warnings.len(), 1);
}

#[test]
fn notifications_from_superseded_handles_are_ignored() {
    let (dir, repo) = init_repo();
    write(dir.path(), "a.txt", "a");
    add_all(&repo);
    create_commit(&repo, "Init").unwrap();
    let mut session = Session::new(Settings::default());
    assert!(!session.accepts_notification(session.generation));
    let path = dir.path().to_str().unwrap().to_string();
    session.open_repository(&path).unwrap();
    let first = session.generation;
    assert!(session.accepts_notification(first));
    session.open_repository(&path).unwrap();
    assert!(!session.accepts_notification(first));
    assert!(session.accepts_notification(session.generation));
}
