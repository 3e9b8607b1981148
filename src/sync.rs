use vstd::prelude::*;
use vstd::string::*;

use vstd::utf8::encode_utf8;

use crate::host::has_prefix;
use crate::pull::{pull_error_text, pull_ff, PullError, PullResult};
use crate::status::{status, RepoState, StatusError};

verus! {

#[verifier::external_type_specification]
#[verifier::external_body]
#[verifier::reject_recursive_types(T)]
pub struct ExUnboundedReceiver<T>(tokio::sync::mpsc::UnboundedReceiver<T>);

#[verifier::external_type_specification]
#[verifier::external_body]
#[verifier::reject_recursive_types(T)]
pub struct ExJoinSet<T>(tokio::task::JoinSet<T>);

/// A repository found in the workspace.
#[derive(Debug)]
pub struct WorkspaceRepo {
    /// Path from the workspace root to the repository; unique in a workspace.
    pub label: String,
    /// Absolute path of the repository's directory.
    pub path: String,
}

/// What to sync, and whether to stay off the network.
#[derive(Debug)]
pub struct SyncOptions {
    pub offline: bool,
    pub repos: Vec<WorkspaceRepo>,
}

/// The work of one sync task: one repository, and whether it stays off the
/// network.
#[derive(Debug)]
pub struct SyncJob {
    pub repo: WorkspaceRepo,
    pub offline: bool,
}

/// A sync run before its tasks start: one job per repository, in the
/// options' order.
#[derive(Debug)]
pub struct SyncPlan {
    /// Whether the network is used: not offline, and reachable.
    pub network: bool,
    /// Whether offline mode was asked for.
    pub offline: bool,
    /// Labels of the repositories, in the options' order.
    pub repos: Vec<String>,
    pub jobs: Vec<SyncJob>,
}

/// What the sync of one repository did.
#[derive(Debug, PartialEq, Eq)]
pub enum SyncKind {
    Pull(PullResult),
    /// The repository was not pulled: offline mode, or no network.
    Skipped,
}

/// Outcome of syncing one repository.
#[derive(Debug)]
pub struct SyncResult {
    pub kind: SyncKind,
    pub repo: WorkspaceRepo,
    pub state: RepoState,
}

/// How a finished sync run is summed up.
#[derive(Clone, Copy, Debug, PartialEq, Eq, Structural)]
pub enum RunSummary {
    /// Every repository was pulled.
    AllSynced,
    /// Offline mode was not asked for, but the network could not be reached.
    NetworkUnavailable,
    /// Offline mode was asked for: only local state was reported.
    OfflineReport,
}

/// A sync run in flight: the receiving end of the results stream and the
/// tasks that feed it.
pub struct Sync {
    /// The tasks that sync the repositories.
    pub join_set: tokio::task::JoinSet<()>,
    /// Whether the network is used: not offline, and reachable.
    pub network: bool,
    /// Whether offline mode was asked for.
    pub offline: bool,
    /// Labels of the repositories being synced.
    pub repos: Vec<String>,
    /// One result per repository, in the order the tasks finish.
    pub rx: tokio::sync::mpsc::UnboundedReceiver<SyncResult>,
}

impl WorkspaceRepo {
    /// The repository at `p`, labelled by its path relative to
    /// `workspace_root`.
    pub fn new(workspace_root: &str, p: String) -> (r: Self)
        requires
            has_prefix(p@, workspace_root@ + "/"@),
        ensures
            r.path == p,
            r.label@ == p@.skip(workspace_root@.len() + 1int),
    {
        proof {
            reveal_strlit("/");
        }
        let end = p.as_str().unicode_len();
        let start = workspace_root.unicode_len() + 1;
        let label = String::from_str(p.as_str().substring_char(start, end));
        WorkspaceRepo { label, path: p }
    }

    /// A copy of the repository.
    pub fn duplicate(&self) -> (r: Self)
        ensures
            r == *self,
    {
        WorkspaceRepo { label: self.label.clone(), path: self.path.clone() }
    }
}

/// Length in bytes of the UTF-8 encoding of `label`, as `str::len` gives
/// it.
pub open spec fn label_len(label: String) -> usize {
    encode_utf8(label@).len() as usize
}

/// Whether the network is used for a run: only when offline mode was not
/// asked for and the network is reachable.
pub open spec fn network_used(offline: bool, reachable: bool) -> bool {
    !offline && reachable
}

/// `plan` is the plan of a run over `repos`, with offline mode `offline`
/// and the network `reachable` or not.
pub open spec fn is_plan_of(
    plan: SyncPlan,
    offline: bool,
    repos: Seq<WorkspaceRepo>,
    reachable: bool,
) -> bool {
    &&& plan.offline == offline
    &&& plan.network == network_used(offline, reachable)
    &&& plan.jobs@.len() == repos.len()
    &&& plan.repos@.len() == repos.len()
    &&& forall|i: int|
        0 <= i < repos.len() ==> {
            &&& (#[trigger] plan.jobs@[i]).repo == repos[i]
            &&& plan.jobs@[i].offline == !plan.network
            &&& plan.repos@[i] == repos[i].label
        }
}

/// The summary of a run with offline mode `offline` that used the network
/// or not.
pub open spec fn summary_of(offline: bool, network: bool) -> RunSummary {
    if !offline && network {
        RunSummary::AllSynced
    } else if !offline && !network {
        RunSummary::NetworkUnavailable
    } else {
        RunSummary::OfflineReport
    }
}

/// Plans a run: the network is used only when offline mode is off and the
/// network is `reachable`, and every job is offline exactly when it is not
/// used.
pub fn plan_sync(opts: SyncOptions, reachable: bool) -> (r: SyncPlan)
    ensures
        is_plan_of(r, opts.offline, opts.repos@, reachable),
{
    let network = !opts.offline && reachable;
    let n = opts.repos.len();
    let mut repos: Vec<String> = Vec::with_capacity(n);
    let mut jobs: Vec<SyncJob> = Vec::with_capacity(n);
    let mut i: usize = 0;
    while i < n
        invariant
            n == opts.repos@.len(),
            i <= n,
            network == network_used(opts.offline, reachable),
            jobs@.len() == i,
            repos@.len() == i,
            forall|k: int|
                0 <= k < i ==> {
                    &&& (#[trigger] jobs@[k]).repo == opts.repos@[k]
                    &&& jobs@[k].offline == !network
                    &&& repos@[k] == opts.repos@[k].label
                },
        decreases n - i,
    {
        let repo = opts.repos[i].duplicate();
        repos.push(repo.label.clone());
        jobs.push(SyncJob { repo, offline: !network });
        i = i + 1;
        assert(jobs@[i - 1].repo == opts.repos@[i - 1]);
    }
    SyncPlan { network, offline: opts.offline, repos, jobs }
}

/// The sync kind of a pull that was made: its outcome, or, when it failed,
/// the `Error` outcome with the failure's message.
pub fn pull_kind(pulled: Result<PullResult, PullError>) -> (r: SyncKind)
    ensures
        match pulled {
            Ok(p) => r == SyncKind::Pull(p),
            Err(e) => r matches SyncKind::Pull(PullResult::Error(msg)) && (!(e is Git) ==> msg@
                == pull_error_text(e)),
        },
{
    match pulled {
        Ok(p) => SyncKind::Pull(p),
        Err(e) => SyncKind::Pull(PullResult::Error(e.message())),
    }
}

/// Syncs one repository: unless `offline`, pulls it, a failed pull becoming
/// an `Error` outcome; then reads its local state, whose failure fails the
/// sync.
pub fn sync_repo(repo: WorkspaceRepo, offline: bool) -> (r: Result<SyncResult, StatusError>)
    ensures
        r is Ok ==> r->Ok_0.repo == repo,
        r is Ok ==> (offline <==> r->Ok_0.kind is Skipped),
        r is Ok ==> r->Ok_0.state.changes.wf(),
{
    let kind = if offline {
        SyncKind::Skipped
    } else {
        pull_kind(pull_ff(repo.path.as_str()))
    };
    let state = status(repo.path.as_str())?;
    Ok(SyncResult { kind, repo, state })
}

/// The summary of a run.
pub fn run_summary(offline: bool, network: bool) -> (r: RunSummary)
    ensures
        r == summary_of(offline, network),
{
    if !offline && network {
        RunSummary::AllSynced
    } else if !offline && !network {
        RunSummary::NetworkUnavailable
    } else {
        RunSummary::OfflineReport
    }
}

impl Sync {
    /// The handle of a run whose tasks are `join_set`, sending on the stream
    /// that `rx` receives.
    pub fn new(
        network: bool,
        offline: bool,
        repos: Vec<String>,
        join_set: tokio::task::JoinSet<()>,
        rx: tokio::sync::mpsc::UnboundedReceiver<SyncResult>,
    ) -> (r: Self)
        ensures
            r.network == network,
            r.offline == offline,
            r.repos == repos,
    {
        Sync { join_set, network, offline, repos, rx }
    }

    /// Whether the network was wanted but could not be reached.
    pub fn is_network_unavailable(&self) -> (r: bool)
        ensures
            r == (!self.offline && !self.network),
    {
        !self.offline && !self.network
    }

    /// Whether the run only reports local state.
    pub fn is_offline_report(&self) -> (r: bool)
        ensures
            r == (self.offline || !self.network),
    {
        self.offline || !self.network
    }

    /// How the run is summed up once every result has arrived.
    pub fn summary(&self) -> (r: RunSummary)
        ensures
            r == summary_of(self.offline, self.network),
    {
        run_summary(self.offline, self.network)
    }

    /// Length in bytes of the longest repository label, 0 when there is
    /// none.
    pub fn max_repo_label_len(&self) -> (r: usize)
        ensures
            forall|i: int|
                0 <= i < self.repos@.len() ==> label_len(#[trigger] self.repos@[i])
                    <= r,
            self.repos@.len() == 0 ==> r == 0,
            self.repos@.len() > 0 ==> exists|i: int|
                0 <= i < self.repos@.len() && label_len(#[trigger] self.repos@[i])
                    == r,
    {
        let mut max: usize = 0;
        let mut i: usize = 0;
        while i < self.repos.len()
            invariant
                i <= self.repos@.len(),
                forall|k: int|
                    0 <= k < i ==> label_len(#[trigger] self.repos@[k]) <= max,
                i == 0 ==> max == 0,
                i > 0 ==> exists|k: int|
                    0 <= k < i && label_len(#[trigger] self.repos@[k]) == max,
            decreases self.repos@.len() - i,
        {
            let len = self.repos[i].as_str().len();
            if len > max {
                max = len;
            }
            i = i + 1;
        }
        max
    }
}

/// `results`, in arrival order, are what the tasks of `jobs` sent: each task
/// sends at most one result, the `k`-th to arrive coming from job
/// `order[k]`, with that job's repository, and `Skipped` exactly when that
/// job stayed off the network (as `sync_repo` ensures).
pub open spec fn is_arrival_of(jobs: Seq<SyncJob>, results: Seq<SyncResult>, order: Seq<int>) -> bool {
    &&& order.len() == results.len()
    &&& order.no_duplicates()
    &&& forall|k: int| 0 <= k < order.len() ==> 0 <= #[trigger] order[k] < jobs.len()
    &&& forall|k: int|
        0 <= k < results.len() ==> {
            &&& (#[trigger] results[k]).repo == jobs[order[k]].repo
            &&& (jobs[order[k]].offline <==> results[k].kind is Skipped)
        }
}

/// One of `results` is the result of `repo`.
pub open spec fn has_result_for(results: Seq<SyncResult>, repo: WorkspaceRepo) -> bool {
    exists|k: int| 0 <= k < results.len() && (#[trigger] results[k]).repo == repo
}

/// No two repositories share a label.
pub open spec fn labels_unique(repos: Seq<WorkspaceRepo>) -> bool {
    forall|i: int, j: int|
        0 <= i < repos.len() && 0 <= j < repos.len() && i != j ==> (#[trigger] repos[i]).label@
            != (#[trigger] repos[j]).label@
}

/// Once every task of a run has sent its result, the consumer holds exactly
/// one result per repository, whatever order they finished in: as many
/// results as repositories, each repository among them, and, the
/// workspace's labels being unique, no label twice.
pub proof fn lemma_each_repo_once(
    plan: SyncPlan,
    offline: bool,
    repos: Seq<WorkspaceRepo>,
    reachable: bool,
    results: Seq<SyncResult>,
    order: Seq<int>,
)
    requires
        is_plan_of(plan, offline, repos, reachable),
        is_arrival_of(plan.jobs@, results, order),
        results.len() == plan.jobs@.len(),
        labels_unique(repos),
    ensures
        results.len() == repos.len(),
        forall|i: int| 0 <= i < repos.len() ==> has_result_for(results, #[trigger] repos[i]),
        forall|k1: int, k2: int|
            0 <= k1 < results.len() && 0 <= k2 < results.len() && k1 != k2 ==> (#[trigger] results[k1]).repo.label@
                != (#[trigger] results[k2]).repo.label@,
{
    let n = repos.len() as int;
    let seen = order.to_set();
    let all = vstd::set_lib::set_int_range(0, n);
    order.unique_seq_to_set();
    vstd::set_lib::lemma_int_range(0, n);
    assert(seen.subset_of(all)) by {
        assert forall|x: int| seen.contains(x) implies all.contains(x) by {
            assert(order.contains(x));
            let k = choose|k: int| 0 <= k < order.len() && order[k] == x;
            assert(0 <= order[k] < n);
        }
    }
    vstd::set_lib::lemma_subset_equality(seen, all);
    assert forall|i: int| 0 <= i < repos.len() implies has_result_for(results, #[trigger] repos[i]) by {
        assert(all.contains(i));
        assert(seen.contains(i));
        assert(order.contains(i));
        let k = choose|k: int| 0 <= k < order.len() && order[k] == i;
        assert(plan.jobs@[order[k]].repo == repos[i]);
        assert(results[k].repo == repos[i]);
    }
    assert forall|k1: int, k2: int|
        0 <= k1 < results.len() && 0 <= k2 < results.len() && k1 != k2 implies (#[trigger] results[k1]).repo.label@
            != (#[trigger] results[k2]).repo.label@ by {
        let i1 = order[k1];
        let i2 = order[k2];
        assert(i1 != i2);
        assert(plan.jobs@[i1].repo == repos[i1]);
        assert(plan.jobs@[i2].repo == repos[i2]);
    }
}

/// With offline mode asked for, the network is not used and every result of
/// the run is `Skipped`, whether the network is reachable or not.
pub proof fn lemma_offline_skips_all(
    plan: SyncPlan,
    repos: Seq<WorkspaceRepo>,
    reachable: bool,
    results: Seq<SyncResult>,
    order: Seq<int>,
)
    requires
        is_plan_of(plan, true, repos, reachable),
        is_arrival_of(plan.jobs@, results, order),
    ensures
        !plan.network,
        forall|k: int| 0 <= k < results.len() ==> (#[trigger] results[k]).kind is Skipped,
        summary_of(plan.offline, plan.network) == RunSummary::OfflineReport,
{
    assert forall|k: int| 0 <= k < results.len() implies (#[trigger] results[k]).kind is Skipped by {
        assert(plan.jobs@[order[k]].offline);
    }
}

/// With offline mode not asked for but the network unreachable, every
/// result of the run is `Skipped` too, and the run's summary says that the
/// network was unavailable, which differs from the summary of an offline
/// run.
pub proof fn lemma_unreachable_skips_all(
    plan: SyncPlan,
    repos: Seq<WorkspaceRepo>,
    results: Seq<SyncResult>,
    order: Seq<int>,
)
    requires
        is_plan_of(plan, false, repos, false),
        is_arrival_of(plan.jobs@, results, order),
    ensures
        forall|k: int| 0 <= k < results.len() ==> (#[trigger] results[k]).kind is Skipped,
        summary_of(plan.offline, plan.network) == RunSummary::NetworkUnavailable,
        forall|reachable: bool| summary_of(plan.offline, plan.network) != summary_of(true, reachable),
{
    assert forall|k: int| 0 <= k < results.len() implies (#[trigger] results[k]).kind is Skipped by {
        assert(plan.jobs@[order[k]].offline);
    }
}

} // verus!
