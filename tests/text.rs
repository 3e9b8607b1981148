use maestro::pull::{
    commits_before, default_branch_gate, detached_head_outcome, fast_forward_of, reflog_message,
};
use maestro::status::{classify_status, tally_changes, ChangeKind};
use maestro::summary::{changes_phrase, print_notes, pull_phrase, sync_note};
use maestro::text::{change_notes, decimal, join, pad_end};
use maestro::{
    LocalChanges, PullError, PullResult, RemoteHost, RepoState, SyncIndicator, SyncKind, SyncResult,
    SyncResultWidget, WorkspaceRepo, LayoutMode,
};

fn result(kind: SyncKind, changes: LocalChanges) -> SyncResult {
    SyncResult {
        kind,
        repo: WorkspaceRepo { label: "tools/maestro".to_string(), path: "/ws/tools/maestro".to_string() },
        state: RepoState { changes },
    }
}

#[test]
fn all_zero_counters_are_clean() {
    assert_eq!(LocalChanges::from_counts(0, 0, 0, 0), LocalChanges::Clean);
    assert_eq!(
        LocalChanges::from_counts(0, 0, 0, 1),
        LocalChanges::Present { stashes: 0, staged: 0, unstaged: 0, untracked: 1 }
    );
    assert_eq!(
        LocalChanges::from_counts(2, 1, 0, 0),
        LocalChanges::Present { stashes: 2, staged: 1, unstaged: 0, untracked: 0 }
    );
}

#[test]
fn status_flags_are_classified() {
    assert_eq!(classify_status(0), ChangeKind::Unchanged);
    assert_eq!(classify_status(1), ChangeKind::Staged);
    assert_eq!(classify_status(1 | 256), ChangeKind::Staged);
    assert_eq!(classify_status(256), ChangeKind::Unstaged);
    assert_eq!(classify_status(2048), ChangeKind::Unstaged);
    assert_eq!(classify_status(128), ChangeKind::Untracked);
    assert_eq!(classify_status(1 << 14), ChangeKind::Unchanged);
    assert_eq!(tally_changes(0, &vec![0, 1 << 14]), LocalChanges::Clean);
    assert_eq!(
        tally_changes(1, &vec![1, 4, 256, 128, 128, 128]),
        LocalChanges::Present { stashes: 1, staged: 2, unstaged: 1, untracked: 3 }
    );
}

#[test]
fn decimal_and_padding() {
    assert_eq!(decimal(0), "0");
    assert_eq!(decimal(7), "7");
    assert_eq!(decimal(10), "10");
    assert_eq!(decimal(65535), "65535");
    assert_eq!(pad_end("ab", 5), "ab   ");
    assert_eq!(pad_end("abcdef", 3), "abcdef");
    assert_eq!(join(&vec!["a".to_string(), "b".to_string(), "c".to_string()], ", "), "a, b, c");
    assert_eq!(join(&Vec::new(), ", "), "");
}

#[test]
fn change_notes_pluralise() {
    let one = LocalChanges::Present { stashes: 1, staged: 1, unstaged: 0, untracked: 0 };
    assert_eq!(change_notes(&one, "change"), vec!["1 stash", "1 change"]);
    let many = LocalChanges::Present { stashes: 3, staged: 1, unstaged: 2, untracked: 4 };
    assert_eq!(change_notes(&many, "local change"), vec!["3 stashes", "7 local changes"]);
    let stash_only = LocalChanges::Present { stashes: 2, staged: 0, unstaged: 0, untracked: 0 };
    assert_eq!(change_notes(&stash_only, "change"), vec!["2 stashes"]);
    assert!(change_notes(&LocalChanges::Clean, "change").is_empty());
    assert_eq!(changes_phrase(&many), "(local has 3 stashes, 7 changes)");
    assert_eq!(changes_phrase(&LocalChanges::Clean), "");
}

#[test]
fn browser_status_lines() {
    assert_eq!(pull_phrase(&SyncKind::Pull(PullResult::DetachedHead)), "HEAD is detached.");
    assert_eq!(
        pull_phrase(&SyncKind::Pull(PullResult::Error("boom".to_string()))),
        "Failed pulling: boom."
    );
    assert_eq!(pull_phrase(&SyncKind::Pull(PullResult::UpToDate)), "Already up to date.");
    assert_eq!(
        pull_phrase(&SyncKind::Pull(PullResult::UnpullableMerge)),
        "Unable to ff merge changes from remote."
    );
    assert_eq!(pull_phrase(&SyncKind::Skipped), "");
    let r = result(
        SyncKind::Pull(PullResult::FastForward {
            remote: RemoteHost::Other,
            commits: 12,
            from: "a".to_string(),
            to: "b".to_string(),
        }),
        LocalChanges::Present { stashes: 0, staged: 0, unstaged: 1, untracked: 0 },
    );
    let layout = LayoutMode::Comfortable;
    let widget = SyncResultWidget::new(true, &layout, &r);
    assert_eq!(widget.status_text(), "Pulled 12 commits. (local has 1 change)");
    assert_eq!(widget.indicator(), SyncIndicator::LocalChanges);
    assert_eq!(widget.row_height(), 3);
    let compact = LayoutMode::Compact;
    assert_eq!(SyncResultWidget::new(false, &compact, &r).row_height(), 2);
}

#[test]
fn printer_notes() {
    assert_eq!(sync_note(&SyncKind::Pull(PullResult::UpToDate)), None);
    assert_eq!(sync_note(&SyncKind::Skipped), None);
    assert_eq!(
        sync_note(&SyncKind::Pull(PullResult::DetachedHead)),
        Some("detached head".to_string())
    );
    assert_eq!(
        sync_note(&SyncKind::Pull(PullResult::UnpullableMerge)),
        Some("unable to ff merge".to_string())
    );
    let r = result(
        SyncKind::Pull(PullResult::FastForward {
            remote: RemoteHost::Other,
            commits: 1,
            from: "a".to_string(),
            to: "b".to_string(),
        }),
        LocalChanges::Present { stashes: 1, staged: 0, unstaged: 0, untracked: 2 },
    );
    assert_eq!(print_notes(&r), vec!["pulled 1 commits", "1 stash", "2 local changes"]);
    let e = result(SyncKind::Pull(PullResult::Error("bad".to_string())), LocalChanges::Clean);
    assert_eq!(print_notes(&e), vec!["bad"]);
}

#[test]
fn indicators() {
    let clean_ff = result(SyncKind::Pull(PullResult::UpToDate), LocalChanges::Clean);
    assert_eq!(SyncIndicator::from(&clean_ff), SyncIndicator::Clean);
    let detached = result(SyncKind::Pull(PullResult::DetachedHead), LocalChanges::Clean);
    assert_eq!(SyncIndicator::from(&detached), SyncIndicator::Error);
    let skipped = result(
        SyncKind::Skipped,
        LocalChanges::Present { stashes: 1, staged: 0, unstaged: 0, untracked: 0 },
    );
    assert_eq!(SyncIndicator::from(&skipped), SyncIndicator::Noop);
}

#[test]
fn reflog_message_names_branch_and_target() {
    assert_eq!(
        reflog_message("refs/heads/main", "fe98a80"),
        "maestro_git::sync ff refs/heads/main to fe98a80"
    );
}

fn ids(list: &[&str]) -> Vec<String> {
    list.iter().map(|s| s.to_string()).collect()
}

#[test]
fn commits_before_counts_up_to_previous_head() {
    let history = ids(&["fe98a80", "b1", "e303cea", "old"]);
    assert_eq!(commits_before(&history, &"e303cea".to_string()).unwrap(), 2);
    assert_eq!(commits_before(&history, &"fe98a80".to_string()).unwrap(), 0);
    let repeated = ids(&["x", "y", "x"]);
    assert_eq!(commits_before(&repeated, &"x".to_string()).unwrap(), 0);
    assert!(matches!(
        commits_before(&history, &"missing".to_string()),
        Err(PullError::StartNotInHistory)
    ));
    assert!(matches!(
        commits_before(&Vec::new(), &"a".to_string()),
        Err(PullError::StartNotInHistory)
    ));
}

#[test]
fn commits_before_rejects_counts_past_u16() {
    let mut history: Vec<String> = (0..65536).map(|i| format!("c{i}")).collect();
    history.push("start".to_string());
    assert!(matches!(
        commits_before(&history, &"start".to_string()),
        Err(PullError::TooManyCommits)
    ));
    history.remove(0);
    assert_eq!(commits_before(&history, &"start".to_string()).unwrap(), 65535);
}

#[test]
fn pull_decisions() {
    assert_eq!(detached_head_outcome(true), Some(PullResult::DetachedHead));
    assert_eq!(detached_head_outcome(false), None);
    assert!(default_branch_gate(&"a1".to_string(), &"a1".to_string(), "refs/heads/main".to_string()).is_ok());
    match default_branch_gate(&"a1".to_string(), &"b2".to_string(), "refs/heads/main".to_string()) {
        Err(e @ PullError::NotOnDefaultBranch(_)) => {
            assert_eq!(e.message(), "not on refs/heads/main")
        }
        other => panic!("unexpected {other:?}"),
    }
    assert_eq!(
        fast_forward_of(
            Some("git@github.com:eighty4/pear.ng.git".to_string()),
            2,
            "e303cea".to_string(),
            "fe98a80".to_string()
        ),
        PullResult::FastForward {
            commits: 2,
            from: "e303cea".to_string(),
            to: "fe98a80".to_string(),
            remote: RemoteHost::GitHub {
                owner: "eighty4".to_string(),
                name: "pear.ng".to_string()
            }
        }
    );
    assert_eq!(
        fast_forward_of(None, 1, "a".to_string(), "b".to_string()),
        PullResult::FastForward {
            commits: 1,
            from: "a".to_string(),
            to: "b".to_string(),
            remote: RemoteHost::Other
        }
    );
}
