use github_desktop_clone::backend::{ConflictStages, MergeFacts, PatchLine, StashEntry, StatusEntry, StatusFlags, CommitFacts};
use github_desktop_clone::error::AppError;
use github_desktop_clone::history::{commit_info_from, commit_is_pushed};
use github_desktop_clone::backend::RefFacts;
use github_desktop_clone::info::{classify_head, head_label, repository_info_from, HeadState};
use github_desktop_clone::models::{Settings, StageResult};
use github_desktop_clone::ops::{
    branch_list, conflict_info, conflict_outcome, decide_pull, has_nul, pick_message_text,
    pull_outcome, require_staged, retry_batches, stash_infos, PickEvent, PickKind, PickState,
    PullStep,
};
use github_desktop_clone::models::RepositoryInfo;
use github_desktop_clone::session::{path_outcome, settle_failed_open, summarize_repositories, PathOutcome};
use github_desktop_clone::ops::{conflict_infos, leftover_to_remove, partition_stage, AddOutcome};
use github_desktop_clone::snapshot::{decide_snapshot, HeadRead, SnapshotOutcome};
use github_desktop_clone::recent::{recent_after_open, recent_without, RECENT_LIMIT};
use github_desktop_clone::remote::{escape_quotes, ssh_command};
use github_desktop_clone::snapshot::safety_ref_text;
use github_desktop_clone::status::{classify, classify_entries};
use github_desktop_clone::diff::summarize_patch;
use github_desktop_clone::text::{decimal_text, has_prefix, join_with, strip_prefix_or_keep, trim_trailing_separators};
use github_desktop_clone::validate::{is_safe_git_arg, is_valid_clone_url};
use github_desktop_clone::watch::{WatchAction, WatchInput, WatchPhase};

fn flags() -> StatusFlags {
    StatusFlags {
        index_new: false,
        index_modified: false,
        index_deleted: false,
        wt_new: false,
        wt_modified: false,
        wt_deleted: false,
    }
}

fn strings(v: &[&str]) -> Vec<String> {
    v.iter().map(|s| s.to_string()).collect()
}

#[test]
fn safe_arg_accepts_plain_branch_names() {
    assert!(is_safe_git_arg("feature/login-form"));
    assert!(is_safe_git_arg("main"));
}

#[test]
fn safe_arg_rejects_flags_whitespace_and_metacharacters() {
    assert!(!is_safe_git_arg(""));
    assert!(!is_safe_git_arg("-rf"));
    assert!(!is_safe_git_arg("a b"));
    assert!(!is_safe_git_arg("a\tb"));
    assert!(!is_safe_git_arg("a;b"));
    assert!(!is_safe_git_arg("a&b"));
    assert!(!is_safe_git_arg("a|b"));
    assert!(!is_safe_git_arg("a`b"));
    assert!(!is_safe_git_arg("a$b"));
    assert!(!is_safe_git_arg("a\\b"));
}

#[test]
fn clone_url_rules() {
    assert!(is_valid_clone_url("https://example.com/repo.git"));
    assert!(!is_valid_clone_url("--upload-pack=x"));
    assert!(!is_valid_clone_url("https://example.com/a b"));
    assert!(!is_valid_clone_url("x;rm"));
}

#[test]
fn decimal_rendering() {
    assert_eq!(decimal_text(0), "0");
    assert_eq!(decimal_text(7), "7");
    assert_eq!(decimal_text(1700000000), "1700000000");
    assert_eq!(decimal_text(u64::MAX), "18446744073709551615");
}

#[test]
fn trailing_separators_are_trimmed() {
    assert_eq!(trim_trailing_separators("/home/u/repo/"), "/home/u/repo");
    assert_eq!(trim_trailing_separators("C:\\repo\\\\"), "C:\\repo");
    assert_eq!(trim_trailing_separators("/a/b"), "/a/b");
    assert_eq!(trim_trailing_separators("///"), "");
    let once = trim_trailing_separators("/x//");
    assert_eq!(trim_trailing_separators(&once), once);
}

#[test]
fn prefix_helpers() {
    assert!(has_prefix("refs/heads/main", "refs/heads/"));
    assert!(!has_prefix("refs/tags/v1", "refs/heads/"));
    assert_eq!(strip_prefix_or_keep("refs/heads/main", "refs/heads/"), "main");
    assert_eq!(strip_prefix_or_keep("main", "refs/heads/"), "main");
}

#[test]
fn join_with_separator() {
    assert_eq!(join_with(&strings(&["a", "b", "c"]), "; "), "a; b; c");
    assert_eq!(join_with(&strings(&["only"]), "; "), "only");
    assert_eq!(join_with(&Vec::new(), "; "), "");
}

#[test]
fn error_messages_carry_their_kind() {
    assert_eq!(AppError::Git("boom".to_string()).message(), "Git Error: boom");
    assert_eq!(AppError::Io("disk".to_string()).message(), "IO Error: disk");
    assert_eq!(AppError::Lock("busy".to_string()).message(), "Concurrency Error: busy");
    assert_eq!(AppError::Config("cfg".to_string()).message(), "Config Error: cfg");
    assert_eq!(
        AppError::Precondition("No repository open".to_string()).message(),
        "Precondition Error: No repository open"
    );
    assert_eq!(AppError::Conflict("c".to_string()).message(), "Conflict: c");
    assert_eq!(AppError::NonFastForward("d".to_string()).message(), "Non-fast-forward: d");
    assert!(matches!(AppError::from("x".to_string()), AppError::Git(s) if s == "x"));
}

#[test]
fn status_precedence() {
    let mut f = flags();
    f.index_new = true;
    f.wt_modified = true;
    assert_eq!(classify(f), ("added", true));
    let mut f = flags();
    f.index_modified = true;
    f.index_deleted = true;
    assert_eq!(classify(f), ("modified", true));
    let mut f = flags();
    f.index_deleted = true;
    assert_eq!(classify(f), ("deleted", true));
    let mut f = flags();
    f.wt_new = true;
    assert_eq!(classify(f), ("untracked", false));
    let mut f = flags();
    f.wt_modified = true;
    f.wt_deleted = true;
    assert_eq!(classify(f), ("modified", false));
    let mut f = flags();
    f.wt_deleted = true;
    assert_eq!(classify(f), ("deleted", false));
    assert_eq!(classify(flags()), ("unknown", false));
}

#[test]
fn status_entries_keep_order_and_default_path() {
    let mut f = flags();
    f.wt_new = true;
    let entries = vec![
        StatusEntry { path: Some("b.txt".to_string()), flags: f },
        StatusEntry { path: None, flags: flags() },
    ];
    let out = classify_entries(&entries);
    assert_eq!(out.len(), 2);
    assert_eq!(out[0].path, "b.txt");
    assert_eq!(out[0].status, "untracked");
    assert!(!out[0].staged);
    assert_eq!(out[1].path, "unknown");
    assert_eq!(out[1].status, "unknown");
}

fn line(path: Option<&str>, origin: char, content: &str) -> PatchLine {
    PatchLine { path: path.map(|p| p.to_string()), origin, content: content.to_string() }
}

#[test]
fn patch_lines_gather_per_file() {
    let lines = vec![
        line(Some("a.txt"), 'F', "diff --git a/a.txt b/a.txt\n"),
        line(Some("a.txt"), 'H', "@@ -1 +1 @@\n"),
        line(Some("a.txt"), '-', "old\n"),
        line(Some("a.txt"), '+', "new\n"),
        line(Some("b.txt"), '+', "b1\n"),
        line(Some("a.txt"), ' ', "ctx\n"),
        line(Some("b.txt"), '+', "b2\n"),
        line(None, '-', "gone\n"),
    ];
    let out = summarize_patch(&lines);
    assert_eq!(out.len(), 3);
    assert_eq!(out[0].path, "a.txt");
    assert_eq!(out[0].additions, 1);
    assert_eq!(out[0].deletions, 1);
    assert_eq!(
        out[0].diff_text,
        "diff --git a/a.txt b/a.txt\n@@ -1 +1 @@\n-old\n+new\n ctx\n"
    );
    assert_eq!(out[1].path, "b.txt");
    assert_eq!(out[1].additions, 2);
    assert_eq!(out[1].deletions, 0);
    assert_eq!(out[1].diff_text, "+b1\n+b2\n");
    assert_eq!(out[2].path, "unknown");
    assert_eq!(out[2].deletions, 1);
}

#[test]
fn patch_of_nothing_is_empty() {
    assert!(summarize_patch(&Vec::new()).is_empty());
}

#[test]
fn unborn_head_reports_branch_from_symbolic_target() {
    let head = HeadState::Unborn { symbolic_target: Some("refs/heads/main".to_string()) };
    let info = repository_info_from(&head, Some((3, 4)), 0, "/tmp/repo/");
    assert_eq!(info.current_branch, "main");
    assert_eq!(info.ahead, 0);
    assert_eq!(info.behind, 0);
    assert!(!info.is_dirty);
    assert_eq!(info.path, "/tmp/repo");
    let dirty = repository_info_from(&head, None, 2, "/tmp/repo");
    assert!(dirty.is_dirty);
}

#[test]
fn branch_head_reports_tracking_counts() {
    let head = HeadState::Branch { shorthand: Some("feature".to_string()) };
    let info = repository_info_from(&head, Some((2, 5)), 1, "/r");
    assert_eq!(info.current_branch, "feature");
    assert_eq!((info.ahead, info.behind), (2, 5));
    let untracked = repository_info_from(&head, None, 0, "/r");
    assert_eq!((untracked.ahead, untracked.behind), (0, 0));
    assert_eq!(head_label(&HeadState::Detached), "detached");
    assert_eq!(head_label(&HeadState::Unborn { symbolic_target: None }), "unknown");
    assert_eq!(head_label(&HeadState::Branch { shorthand: None }), "unknown");
}

#[test]
fn pushed_marking_against_upstream_tip() {
    let tip = Some("aaaa".to_string());
    // the tip itself
    assert!(commit_is_pushed(&tip, &"aaaa".to_string(), false));
    // strictly behind the tip: the tip descends from it
    assert!(commit_is_pushed(&tip, &"bbbb".to_string(), true));
    // strictly ahead of the tip: the tip does not descend from it
    assert!(!commit_is_pushed(&tip, &"cccc".to_string(), false));
    // no upstream at all
    assert!(!commit_is_pushed(&None, &"aaaa".to_string(), true));
}

#[test]
fn commit_record_defaults() {
    let facts = CommitFacts {
        sha: "abc".to_string(),
        message: None,
        author: None,
        email: None,
        time: 42,
        parents: vec!["p1".to_string()],
    };
    let info = commit_info_from(facts, true);
    assert_eq!(info.sha, "abc");
    assert_eq!(info.message, "");
    assert_eq!(info.author, "Unknown");
    assert_eq!(info.email, "");
    assert_eq!(info.timestamp, 42);
    assert!(info.is_pushed);
    assert_eq!(info.parents, vec!["p1".to_string()]);
}

#[test]
fn nothing_staged_is_a_precondition_failure() {
    let res = StageResult {
        staged: Vec::new(),
        warnings: strings(&["Skipped 'a': file not found (removed from index)", "w2"]),
    };
    match require_staged(&res) {
        Err(AppError::Precondition(s)) => assert_eq!(
            s,
            "No files could be staged: Skipped 'a': file not found (removed from index); w2"
        ),
        other => panic!("unexpected {:?}", other),
    }
    let ok = StageResult { staged: strings(&["a"]), warnings: strings(&["w"]) };
    assert!(require_staged(&ok).is_ok());
    let empty = StageResult { staged: Vec::new(), warnings: Vec::new() };
    assert!(require_staged(&empty).is_ok());
}

#[test]
fn pick_messages() {
    assert_eq!(pick_message_text(PickKind::CherryPick, Some("Fix bug".to_string())), "Fix bug");
    assert_eq!(pick_message_text(PickKind::CherryPick, None), "Cherry-picked commit");
    assert_eq!(
        pick_message_text(PickKind::Revert, Some("Fix bug".to_string())),
        "Revert \"Fix bug\""
    );
    assert_eq!(pick_message_text(PickKind::Revert, None), "Revert \"\"");
}

#[test]
fn pick_state_machine() {
    let s = PickState::Idle.next(PickEvent::Start);
    assert_eq!(s, PickState::InProgress);
    assert_eq!(s.next(PickEvent::Applied { conflicts: false }), PickState::Committed);
    let pending = s.next(PickEvent::Applied { conflicts: true });
    assert_eq!(pending, PickState::ConflictPending);
    assert_eq!(pending.next(PickEvent::CleanedUp { remaining: 2 }), PickState::ConflictPending);
    assert_eq!(pending.next(PickEvent::Start), PickState::ConflictPending);
    assert_eq!(pending.next(PickEvent::CleanedUp { remaining: 0 }), PickState::Idle);
    assert_eq!(PickState::Committed.next(PickEvent::CleanedUp { remaining: 0 }), PickState::Idle);
}

#[test]
fn pull_decisions() {
    assert_eq!(decide_pull(&MergeFacts { up_to_date: true, fast_forward: true }), PullStep::UpToDate);
    assert_eq!(decide_pull(&MergeFacts { up_to_date: false, fast_forward: true }), PullStep::FastForward);
    assert_eq!(decide_pull(&MergeFacts { up_to_date: false, fast_forward: false }), PullStep::Diverged);
}

#[test]
fn branch_records() {
    let out = branch_list(vec![Some("main".to_string()), None, Some("dev".to_string())], &Some("dev".to_string()));
    assert_eq!(out.len(), 3);
    assert_eq!(out[0].name, "main");
    assert!(!out[0].is_current);
    assert_eq!(out[1].name, "unknown");
    assert!(out[2].is_current);
    assert!(!out[2].is_remote);
}

#[test]
fn conflict_records() {
    let both = ConflictStages {
        ancestor: Some("a.txt".to_string()),
        our: Some("a.txt".to_string()),
        their: Some("a.txt".to_string()),
    };
    let c = conflict_info(&both);
    assert_eq!((c.path.as_str(), c.our_status.as_str(), c.their_status.as_str()), ("a.txt", "modified", "modified"));
    let deleted_theirs = ConflictStages { ancestor: None, our: Some("o.txt".to_string()), their: None };
    let c = conflict_info(&deleted_theirs);
    assert_eq!((c.path.as_str(), c.our_status.as_str(), c.their_status.as_str()), ("o.txt", "modified", "deleted"));
    let added_theirs = ConflictStages { ancestor: None, our: None, their: Some("t.txt".to_string()) };
    let c = conflict_info(&added_theirs);
    assert_eq!((c.path.as_str(), c.our_status.as_str(), c.their_status.as_str()), ("t.txt", "deleted", "modified"));
}

#[test]
fn stash_records() {
    let out = stash_infos(vec![StashEntry { message: "WIP on main".to_string(), sha: "s0".to_string() }, StashEntry { message: "older".to_string(), sha: "s1".to_string() }]);
    assert_eq!(out.len(), 2);
    assert_eq!(out[0].index, 0);
    assert_eq!(out[1].index, 1);
    assert_eq!(out[0].message, "WIP on main");
    assert_eq!(out[0].sha, "s0");
}

#[test]
fn nul_detection() {
    assert!(has_nul("a\0b"));
    assert!(!has_nul("a/b"));
}

#[test]
fn recent_list_capped_and_deduplicated() {
    let list: Vec<String> = (0..12).map(|i| format!("/r{}", i)).collect();
    let out = recent_after_open(&list, "/new");
    assert_eq!(out.len(), RECENT_LIMIT);
    assert_eq!(out[0], "/new");
    assert_eq!(out[1], "/r0");
    assert_eq!(out[9], "/r8");
    let again = recent_after_open(&out, "/new");
    assert_eq!(again, out);
}

#[test]
fn reopening_moves_to_front_without_duplicates() {
    let list = strings(&["/a", "/b", "/c"]);
    let out = recent_after_open(&list, "/b");
    assert_eq!(out, strings(&["/b", "/a", "/c"]));
    let dup = strings(&["/a", "/a", "/b"]);
    assert_eq!(recent_after_open(&dup, "/c"), strings(&["/c", "/a", "/b"]));
    let mut s = Settings::default();
    for _ in 0..5 {
        s.remember_opened("/same");
    }
    assert_eq!(s.recent_repositories, strings(&["/same"]));
    assert_eq!(s.last_opened_repository.as_deref(), Some("/same"));
}

#[test]
fn forgetting_repositories() {
    let list = strings(&["/a", "/b", "/c", "/b"]);
    assert_eq!(recent_without(&list, &strings(&["/b"])), strings(&["/a", "/c"]));
    let mut s = Settings::default();
    s.remember_opened("/a");
    s.remember_opened("/b");
    s.forget_repositories(&strings(&["/b"]));
    assert_eq!(s.recent_repositories, strings(&["/a"]));
    assert!(s.last_opened_repository.is_none());
}

#[test]
fn default_settings() {
    let s = Settings::default();
    assert_eq!(s.theme, "dark");
    assert!(s.recent_repositories.is_empty());
    assert!(s.ssh_key_path.is_none());
}

#[test]
fn burst_of_five_events_yields_one_notification() {
    // The first event starts the settle delay; the other four queue up
    // meanwhile and are drained after the notification.
    let inputs = [
        WatchInput::Changed,
        WatchInput::Changed,
        WatchInput::Changed,
        WatchInput::Settled,
        WatchInput::Changed,
        WatchInput::Changed,
        WatchInput::Quiet,
    ];
    let mut phase = WatchPhase::Idle;
    let mut notes = 0;
    for i in inputs {
        let (next, action) = phase.step(i);
        if action == WatchAction::Notify {
            notes += 1;
        }
        phase = next;
    }
    assert_eq!(notes, 1);
    assert_eq!(phase, WatchPhase::Idle);
}

#[test]
fn watcher_error_is_reported_not_notified() {
    let (phase, action) = WatchPhase::Idle.step(WatchInput::Failed);
    assert_eq!(phase, WatchPhase::Idle);
    assert_eq!(action, WatchAction::Report);
    let (phase, action) = WatchPhase::Idle.step(WatchInput::Changed);
    assert_eq!((phase, action), (WatchPhase::Settling, WatchAction::Settle));
}

#[test]
fn two_windows_yield_two_notifications() {
    let inputs = [
        WatchInput::Changed,
        WatchInput::Settled,
        WatchInput::Quiet,
        WatchInput::Changed,
        WatchInput::Settled,
        WatchInput::Quiet,
    ];
    let mut phase = WatchPhase::Idle;
    let mut notes = 0;
    for i in inputs {
        let (next, action) = phase.step(i);
        if action == WatchAction::Notify {
            notes += 1;
        }
        phase = next;
    }
    assert_eq!(notes, 2);
}

#[test]
fn ssh_commands() {
    assert_eq!(ssh_command(None, Some("/home/u")).unwrap(), None);
    assert_eq!(ssh_command(Some("   "), Some("/home/u")).unwrap(), None);
    assert_eq!(
        ssh_command(Some("~/.ssh/id_ed25519"), Some("/home/u")).unwrap().unwrap(),
        "ssh -i \"/home/u/.ssh/id_ed25519\" -o IdentitiesOnly=yes"
    );
    assert_eq!(
        ssh_command(Some("/keys/my\"key"), None).unwrap().unwrap(),
        "ssh -i \"/keys/my\\\"key\" -o IdentitiesOnly=yes"
    );
    assert!(matches!(ssh_command(Some("~/.ssh/id"), None), Err(AppError::Config(_))));
    assert_eq!(escape_quotes("a\"b\""), "a\\\"b\\\"");
}

#[test]
fn safety_ref_names() {
    assert_eq!(safety_ref_text("amend", 1700000000, 0), "refs/safety/amend/1700000000");
    assert_eq!(safety_ref_text("discard-all", 5, 3), "refs/safety/discard-all/5-3");
}

#[test]
fn head_classification() {
    let branch = RefFacts {
        is_branch: true,
        name: Some("refs/heads/dev".to_string()),
        shorthand: Some("dev".to_string()),
        target: None,
        symbolic_target: None,
    };
    assert!(matches!(classify_head(Some(&branch), None), HeadState::Branch { shorthand: Some(s) } if s == "dev"));
    let detached = RefFacts { is_branch: false, name: Some("HEAD".to_string()), shorthand: None, target: None, symbolic_target: None };
    assert!(matches!(classify_head(Some(&detached), None), HeadState::Detached));
    let unborn = classify_head(None, Some("refs/heads/trunk".to_string()));
    assert_eq!(head_label(&unborn), "trunk");
}

#[test]
fn unicode_whitespace_is_refused_in_names() {
    for ws in ["a\u{00a0}b", "a\u{0085}b", "a\u{1680}b", "a\u{2003}b", "a\u{2028}b", "a\u{202f}b", "a\u{3000}b", "a\u{000b}b"] {
        assert!(!is_safe_git_arg(ws), "accepted {:?}", ws);
    }
    assert!(is_safe_git_arg("caf\u{e9}"));
    assert_eq!(ssh_command(Some("\u{3000}\u{00a0}"), None).unwrap(), None);
}

#[test]
fn conflicts_stop_a_pick() {
    assert_eq!(conflict_outcome(PickKind::CherryPick, PickState::InProgress, 0).unwrap(), PickState::Committed);
    match conflict_outcome(PickKind::Revert, PickState::InProgress, 2) {
        Err(AppError::Conflict(s)) => assert_eq!(s, "Revert resulted in conflicts. Please resolve them."),
        other => panic!("unexpected {:?}", other),
    }
}

#[test]
fn pull_outcomes() {
    assert_eq!(pull_outcome(&MergeFacts { up_to_date: true, fast_forward: false }).unwrap(), PullStep::UpToDate);
    assert_eq!(pull_outcome(&MergeFacts { up_to_date: false, fast_forward: true }).unwrap(), PullStep::FastForward);
    assert!(matches!(pull_outcome(&MergeFacts { up_to_date: false, fast_forward: false }), Err(AppError::NonFastForward(_))));
}

#[test]
fn unstage_retries_one_path_at_a_time() {
    let paths = strings(&["a", "b"]);
    assert!(retry_batches(&paths, true).is_empty());
    assert_eq!(retry_batches(&paths, false), vec![strings(&["a"]), strings(&["b"])]);
}

#[test]
fn snapshot_of_unresolved_head() {
    assert_eq!(decide_snapshot(HeadRead::Unborn, None).unwrap(), SnapshotOutcome::NothingToProtect);
    assert_eq!(decide_snapshot(HeadRead::Unreadable, None).unwrap(), SnapshotOutcome::HeadUnreadable);
    assert_eq!(decide_snapshot(HeadRead::Commit, Some(3)).unwrap(), SnapshotOutcome::Written);
    assert!(matches!(decide_snapshot(HeadRead::Commit, None), Err(AppError::Git(_))));
}

#[test]
fn repository_list_summaries() {
    let info = RepositoryInfo {
        path: "/a".to_string(),
        current_branch: "main".to_string(),
        is_dirty: true,
        ahead: 1,
        behind: 2,
    };
    let paths = strings(&["/a", "/gone", "/b", "/gone2"]);
    let (results, gone) = summarize_repositories(
        &paths,
        vec![PathOutcome::Summary(info), PathOutcome::Missing, PathOutcome::Unreadable, PathOutcome::Missing],
    );
    assert_eq!(results.len(), 2);
    assert_eq!(results[0].current_branch, "main");
    assert_eq!((results[0].ahead, results[0].behind), (1, 2));
    assert_eq!(results[1].path, "/b");
    assert_eq!(results[1].current_branch, "unknown");
    assert!(!results[1].is_dirty);
    assert_eq!(gone, strings(&["/gone", "/gone2"]));
}

#[test]
fn stage_partition_follows_outcomes() {
    let paths = strings(&["a", "gone", "bad"]);
    let res = partition_stage(&paths, &vec![AddOutcome::Added, AddOutcome::Missing, AddOutcome::Refused("locked".to_string())]);
    assert_eq!(res.staged, strings(&["a"]));
    assert_eq!(
        res.warnings,
        strings(&["Skipped 'gone': file not found (removed from index)", "Failed to stage 'bad': locked"])
    );
    let only_missing = partition_stage(&strings(&["x", "y"]), &vec![AddOutcome::Missing, AddOutcome::Missing]);
    assert!(only_missing.staged.is_empty());
    assert_eq!(only_missing.warnings.len(), 2);
    assert!(matches!(require_staged(&only_missing), Err(AppError::Precondition(_))));
}

#[test]
fn conflict_records_one_per_conflict() {
    let stages = vec![
        ConflictStages { ancestor: Some("a".to_string()), our: Some("a".to_string()), their: None },
        ConflictStages { ancestor: None, our: None, their: Some("b".to_string()) },
    ];
    let out = conflict_infos(&stages);
    assert_eq!(out.len(), 2);
    assert_eq!((out[0].path.as_str(), out[0].their_status.as_str()), ("a", "deleted"));
    assert_eq!((out[1].path.as_str(), out[1].our_status.as_str()), ("b", "deleted"));
}

#[test]
fn discard_leftovers() {
    assert_eq!(leftover_to_remove(true, "/r/a".to_string(), true), None);
    assert_eq!(leftover_to_remove(false, "/r/a".to_string(), true), Some("/r/a".to_string()));
    assert_eq!(leftover_to_remove(false, "/r/a".to_string(), false), None);
}

#[test]
fn path_outcomes() {
    let info = RepositoryInfo { path: "/a".to_string(), current_branch: "m".to_string(), is_dirty: false, ahead: 0, behind: 0 };
    assert!(matches!(path_outcome(true, Some(info), true), PathOutcome::Summary(_)));
    assert!(matches!(path_outcome(true, None, true), PathOutcome::Unreadable));
    assert!(matches!(path_outcome(false, None, true), PathOutcome::Unreadable));
    assert!(matches!(path_outcome(false, None, false), PathOutcome::Missing));
}

#[test]
fn failed_open_prunes_only_missing_paths() {
    let mut s = Settings::default();
    s.remember_opened("/b");
    s.remember_opened("/a");
    settle_failed_open(&mut s, "/a", true);
    assert_eq!(s.recent_repositories, strings(&["/a", "/b"]));
    settle_failed_open(&mut s, "/a", false);
    assert_eq!(s.recent_repositories, strings(&["/b"]));
    assert!(s.last_opened_repository.is_none());
}
