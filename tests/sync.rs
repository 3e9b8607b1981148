use maestro::status::RepoState;
use maestro::sync::pull_kind;
use maestro::{
    plan_sync, run_summary, status, sync_repo, LocalChanges, PullError, PullResult, RemoteHost,
    RunSummary, Sync, SyncKind, SyncOptions, SyncResult, WorkspaceRepo,
};

fn repos(n: usize) -> Vec<WorkspaceRepo> {
    (0..n)
        .map(|i| WorkspaceRepo::new("/ws", format!("/ws/repo{i}")))
        .collect()
}

fn stub_pull(label: &str) -> Result<PullResult, PullError> {
    if label.ends_with('0') {
        Err(PullError::NotOnDefaultBranch("refs/heads/main".to_string()))
    } else if label.len() % 2 == 0 {
        Ok(PullResult::UpToDate)
    } else {
        Ok(PullResult::FastForward {
            remote: RemoteHost::Other,
            commits: 3,
            from: "aaaaaaa".to_string(),
            to: "bbbbbbb".to_string(),
        })
    }
}

fn run_stubbed(offline: bool, reachable: bool, n: usize) -> (Vec<SyncResult>, RunSummary) {
    let plan = plan_sync(SyncOptions { offline, repos: repos(n) }, reachable);
    let summary = run_summary(plan.offline, plan.network);
    let runtime = tokio::runtime::Runtime::new().unwrap();
    let results = runtime.block_on(async move {
        let (tx, mut rx) = tokio::sync::mpsc::unbounded_channel::<SyncResult>();
        let mut join_set = tokio::task::JoinSet::new();
        for job in plan.jobs {
            let tx = tx.clone();
            join_set.spawn(async move {
                let kind = if job.offline {
                    SyncKind::Skipped
                } else {
                    pull_kind(stub_pull(&job.repo.label))
                };
                let state = RepoState { changes: LocalChanges::from_counts(0, 0, 0, 0) };
                tx.send(SyncResult { kind, repo: job.repo, state }).unwrap();
            });
        }
        drop(tx);
        let mut received = Vec::new();
        while let Some(result) = rx.recv().await {
            received.push(result);
        }
        received
    });
    (results, summary)
}

#[test]
fn workspace_repo_label_is_relative_path() {
    let repo = WorkspaceRepo::new("/home/me/ws", "/home/me/ws/tools/maestro".to_string());
    assert_eq!(repo.label, "tools/maestro");
    assert_eq!(repo.path, "/home/me/ws/tools/maestro");
}

#[test]
fn plan_has_one_job_per_repo_in_order() {
    let plan = plan_sync(SyncOptions { offline: false, repos: repos(4) }, true);
    assert!(plan.network);
    assert!(!plan.offline);
    assert_eq!(plan.repos, vec!["repo0", "repo1", "repo2", "repo3"]);
    assert_eq!(plan.jobs.len(), 4);
    for (i, job) in plan.jobs.iter().enumerate() {
        assert_eq!(job.repo.label, format!("repo{i}"));
        assert!(!job.offline);
    }
}

#[test]
fn every_repo_reported_exactly_once() {
    let (results, summary) = run_stubbed(false, true, 25);
    assert_eq!(summary, RunSummary::AllSynced);
    assert_eq!(results.len(), 25);
    let mut labels: Vec<String> = results.iter().map(|r| r.repo.label.clone()).collect();
    labels.sort();
    labels.dedup();
    assert_eq!(labels.len(), 25);
    for i in 0..25 {
        assert!(labels.contains(&format!("repo{i}")));
    }
    let failed = results.iter().find(|r| r.repo.label == "repo0").unwrap();
    assert_eq!(
        failed.kind,
        SyncKind::Pull(PullResult::Error("not on refs/heads/main".to_string()))
    );
}

#[test]
fn offline_skips_every_repo() {
    for reachable in [true, false] {
        let (results, summary) = run_stubbed(true, reachable, 5);
        assert_eq!(results.len(), 5);
        assert!(results.iter().all(|r| r.kind == SyncKind::Skipped));
        assert_eq!(summary, RunSummary::OfflineReport);
    }
}

#[test]
fn unreachable_network_skips_every_repo() {
    let (results, summary) = run_stubbed(false, false, 5);
    assert_eq!(results.len(), 5);
    assert!(results.iter().all(|r| r.kind == SyncKind::Skipped));
    assert_eq!(summary, RunSummary::NetworkUnavailable);
    assert_ne!(summary, run_summary(true, false));
}

#[test]
fn sync_handle_reports_network_and_labels() {
    let (_tx, rx) = tokio::sync::mpsc::unbounded_channel::<SyncResult>();
    let sync = Sync::new(
        false,
        false,
        vec!["a".to_string(), "tools/maestro".to_string(), "xyz".to_string()],
        tokio::task::JoinSet::new(),
        rx,
    );
    assert!(sync.is_network_unavailable());
    assert!(sync.is_offline_report());
    assert_eq!(sync.summary(), RunSummary::NetworkUnavailable);
    assert_eq!(sync.max_repo_label_len(), 13);
}

#[test]
fn empty_sync_has_zero_label_len() {
    let (_tx, rx) = tokio::sync::mpsc::unbounded_channel::<SyncResult>();
    let sync = Sync::new(true, true, Vec::new(), tokio::task::JoinSet::new(), rx);
    assert!(!sync.is_network_unavailable());
    assert_eq!(sync.max_repo_label_len(), 0);
}

#[test]
fn pull_kind_turns_failure_into_error_outcome() {
    assert_eq!(
        pull_kind(Err(PullError::DefaultBranchNotUtf8)),
        SyncKind::Pull(PullResult::Error("remote default branch was not utf8".to_string()))
    );
    assert_eq!(pull_kind(Ok(PullResult::UpToDate)), SyncKind::Pull(PullResult::UpToDate));
}

#[test]
fn status_of_fresh_repository_is_clean() {
    let path = "/tmp/maestro-status-fresh-repo";
    git2::Repository::init(path).unwrap();
    let state = status(path).unwrap();
    assert_eq!(state, RepoState { changes: LocalChanges::Clean });
}

#[test]
fn status_of_missing_repository_fails() {
    assert!(status("/tmp/maestro-no-such-repository/inner").is_err());
}

#[test]
fn sync_repo_without_origin_reports_error() {
    let path = "/tmp/maestro-sync-no-origin";
    git2::Repository::init(path).unwrap();
    let repo = WorkspaceRepo { label: "no-origin".to_string(), path: path.to_string() };
    let result = sync_repo(repo, false).unwrap();
    assert_eq!(result.repo.label, "no-origin");
    match result.kind {
        SyncKind::Pull(PullResult::Error(msg)) => assert!(!msg.is_empty()),
        other => panic!("unexpected {other:?}"),
    }
    let repo = WorkspaceRepo { label: "no-origin".to_string(), path: path.to_string() };
    let result = sync_repo(repo, true).unwrap();
    assert_eq!(result.kind, SyncKind::Skipped);
    assert_eq!(result.state.changes, LocalChanges::Clean);
}
