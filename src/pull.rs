use vstd::prelude::*;
use vstd::string::*;

use crate::git::{
    remote_default_branch,
    agent_auth_callbacks, checkout_head, error_text, fetch_refspec, find_remote, head_detached,
    head_history_ids, merge_analysis, open_repository, reference_commit_id, remote_url, set_head,
    set_reference_target, short_id, MergeAnalysisFlags,
};
use crate::host::{remote_host_of, RemoteHost};

verus! {

/// What pulling a repository's default branch did.
#[derive(Debug, PartialEq, Eq)]
pub enum PullResult {
    /// `HEAD` is not on a branch; nothing was fetched.
    DetachedHead,
    /// The pull failed with this message.
    Error(String),
    /// A fast-forward merge of `commits` commits, from revision `from` to
    /// revision `to`.
    FastForward { remote: RemoteHost, commits: u16, from: String, to: String },
    /// Fetched changes cannot be merged by fast-forward.
    UnpullableMerge,
    /// The remote had nothing to pull.
    UpToDate,
}

/// Why a pull failed.
#[derive(Debug)]
pub enum PullError {
    /// libgit2 reported an error.
    Git(git2::Error),
    /// The remote's default branch name is not UTF-8.
    DefaultBranchNotUtf8,
    /// `HEAD` is not at the remote's default branch, which is named.
    NotOnDefaultBranch(String),
    /// A short commit id is not UTF-8.
    ShortIdNotUtf8,
    /// The previous `HEAD` is not in the history of the new one.
    StartNotInHistory,
    /// More commits were pulled than can be counted.
    TooManyCommits,
}

/// The text of a [`PullError`] other than a libgit2 one.
pub open spec fn pull_error_text(e: PullError) -> Seq<char> {
    match e {
        PullError::Git(_) => Seq::empty(),
        PullError::DefaultBranchNotUtf8 => "remote default branch was not utf8"@,
        PullError::NotOnDefaultBranch(branch) => "not on "@ + branch@,
        PullError::ShortIdNotUtf8 => "revparsed obj short id was not utf8"@,
        PullError::StartNotInHistory => "previous head is not in the fetched history"@,
        PullError::TooManyCommits => "too many commits pulled to count"@,
    }
}

impl PullError {
    /// Human-readable description of the error.
    pub fn message(&self) -> (r: String)
        ensures
            !(self is Git) ==> r@ == pull_error_text(*self),
    {
        match self {
            PullError::Git(e) => error_text(e),
            PullError::DefaultBranchNotUtf8 => String::from_str("remote default branch was not utf8"),
            PullError::NotOnDefaultBranch(branch) => {
                let mut text = String::from_str("not on ");
                text.append(branch.as_str());
                text
            },
            PullError::ShortIdNotUtf8 => String::from_str("revparsed obj short id was not utf8"),
            PullError::StartNotInHistory => String::from_str(
                "previous head is not in the fetched history",
            ),
            PullError::TooManyCommits => String::from_str("too many commits pulled to count"),
        }
    }
}

/// Wraps a libgit2 error.
fn git<T>(r: Result<T, git2::Error>) -> (out: Result<T, PullError>)
    ensures
        r is Ok <==> out is Ok,
        r is Ok ==> out->Ok_0 == r->Ok_0,
{
    match r {
        Ok(v) => Ok(v),
        Err(e) => Err(PullError::Git(e)),
    }
}

/// What a merge analysis of the fetched commit settles: `UpToDate` when
/// there is nothing to merge, `UnpullableMerge` when a merge could not be a
/// fast-forward, and `None` when the branch can be fast-forwarded.
pub fn merge_outcome(analysis: MergeAnalysisFlags) -> (r: Option<PullResult>)
    ensures
        analysis.up_to_date ==> r == Some(PullResult::UpToDate),
        !analysis.up_to_date && !analysis.fast_forward ==> r == Some(PullResult::UnpullableMerge),
        !analysis.up_to_date && analysis.fast_forward ==> r is None,
{
    if analysis.up_to_date {
        Some(PullResult::UpToDate)
    } else if !analysis.fast_forward {
        Some(PullResult::UnpullableMerge)
    } else {
        None
    }
}

/// The reflog message of a fast-forward of `branch` to commit `to`.
pub open spec fn reflog_message_of(branch: Seq<char>, to: Seq<char>) -> Seq<char> {
    "maestro_git::sync ff "@ + branch + " to "@ + to
}

/// Builds the reflog message of a fast-forward of `branch` to commit `to`.
pub fn reflog_message(branch: &str, to: &str) -> (r: String)
    ensures
        r@ == reflog_message_of(branch@, to@),
{
    let mut text = String::from_str("maestro_git::sync ff ");
    text.append(branch);
    text.append(" to ");
    text.append(to);
    text
}

/// `k` is the position of the first id of `ids` that is `start`.
pub open spec fn is_first_match(ids: Seq<String>, start: Seq<char>, k: int) -> bool {
    &&& 0 <= k < ids.len()
    &&& ids[k]@ == start
    &&& forall|j: int| 0 <= j < k ==> (#[trigger] ids[j])@ != start
}

/// The outcome when `HEAD` is detached or not: a detached `HEAD` settles the
/// pull as `DetachedHead`; otherwise the pull goes on.
pub fn detached_head_outcome(detached: bool) -> (r: Option<PullResult>)
    ensures
        detached ==> r == Some(PullResult::DetachedHead),
        !detached ==> r is None,
{
    if detached {
        Some(PullResult::DetachedHead)
    } else {
        None
    }
}

/// Lets the pull go on only when `HEAD` (commit `start`) is at the tip of the
/// remote's default branch `branch` (commit `tip`).
pub fn default_branch_gate(start: &String, tip: &String, branch: String) -> (r: Result<(), PullError>)
    ensures
        r is Ok <==> start@ == tip@,
        r is Err ==> r->Err_0 == PullError::NotOnDefaultBranch(branch),
{
    if *start == *tip {
        Ok(())
    } else {
        Err(PullError::NotOnDefaultBranch(branch))
    }
}

/// The number of commits pulled: how many ids of the new `HEAD`'s history
/// `ids`, newest first, come before the previous `HEAD` `start`. Fails when
/// `start` is not in the history, or when the count does not fit a `u16`.
pub fn commits_before(ids: &Vec<String>, start: &String) -> (r: Result<u16, PullError>)
    ensures
        forall|k: int|
            is_first_match(ids@, start@, k) ==> (k <= u16::MAX ==> r == Ok::<u16, PullError>(
                k as u16,
            )) && (k > u16::MAX ==> r matches Err(PullError::TooManyCommits)),
        (forall|j: int| 0 <= j < ids@.len() ==> (#[trigger] ids@[j])@ != start@) ==> r matches Err(
            PullError::StartNotInHistory,
        ),
{
    let mut i: usize = 0;
    while i < ids.len()
        invariant
            i <= ids@.len(),
            forall|j: int| 0 <= j < i ==> (#[trigger] ids@[j])@ != start@,
        decreases ids@.len() - i,
    {
        if ids[i] == *start {
            assert(is_first_match(ids@, start@, i as int));
            assert forall|k: int| is_first_match(ids@, start@, k) implies k == i by {
                if k < i {
                    assert(ids@[k]@ != start@);
                } else if k > i {
                    assert(ids@[i as int]@ != start@);
                }
            }
            if i > u16::MAX as usize {
                return Err(PullError::TooManyCommits);
            }
            return Ok(i as u16);
        }
        i = i + 1;
    }
    Err(PullError::StartNotInHistory)
}

/// The fast-forward outcome: `commits` commits from revision `from` to
/// revision `to`, pulled from the host that the remote URL `url` names, or
/// from `Other` when the URL is unknown.
pub fn fast_forward_of(url: Option<String>, commits: u16, from: String, to: String) -> (r: PullResult)
    ensures
        r matches PullResult::FastForward { remote, commits: c, from: f, to: t } && c == commits
            && f == from && t == to && match url {
            Some(u) => remote@ == remote_host_of(u@),
            None => remote == RemoteHost::Other,
        },
{
    let remote = match url {
        Some(u) => RemoteHost::new(u.as_str()),
        None => RemoteHost::Other,
    };
    PullResult::FastForward { remote, commits, from, to }
}

/// The short id of the object that `spec` names.
fn short_id_of(repo: &git2::Repository, spec: &str) -> (r: Result<String, PullError>) {
    match git(short_id(repo, spec))? {
        Some(id) => Ok(id),
        None => Err(PullError::ShortIdNotUtf8),
    }
}

/// Fetches the default branch of the `origin` remote of the repository at
/// `path` and fast-forwards the local branch to it when possible. `HEAD`
/// must be at the remote's default branch; a detached `HEAD` is reported
/// without fetching. Never returns the `Error` outcome itself: failures are
/// the `Err` case.
pub fn pull_ff(path: &str) -> (r: Result<PullResult, PullError>)
    ensures
        r is Ok ==> !(r->Ok_0 is Error),
{
    let repo = git(open_repository(path))?;
    if let Some(outcome) = detached_head_outcome(git(head_detached(&repo))?) {
        return Ok(outcome);
    }
    let origin = "origin";
    let mut remote = git(find_remote(&repo, origin))?;
    let branch = match git(remote_default_branch(&mut remote, agent_auth_callbacks()))? {
        Some(branch) => branch,
        None => return Err(PullError::DefaultBranchNotUtf8),
    };
    let start = git(reference_commit_id(&repo, "HEAD"))?;
    let tip = git(reference_commit_id(&repo, branch.as_str()))?;
    default_branch_gate(&start, &tip, branch.clone())?;
    git(fetch_refspec(&mut remote, branch.as_str(), agent_auth_callbacks()))?;
    let fetched = git(reference_commit_id(&repo, "FETCH_HEAD"))?;
    let analysis = git(merge_analysis(&repo, "FETCH_HEAD"))?;
    if let Some(outcome) = merge_outcome(analysis) {
        return Ok(outcome);
    }
    let message = reflog_message(branch.as_str(), fetched.as_str());
    git(set_reference_target(&repo, branch.as_str(), fetched.as_str(), message.as_str()))?;
    git(set_head(&repo, branch.as_str()))?;
    git(checkout_head(&repo))?;
    let history = git(head_history_ids(&repo))?;
    let commits = commits_before(&history, &start)?;
    let from = short_id_of(&repo, start.as_str())?;
    let to = short_id_of(&repo, fetched.as_str())?;
    let url = remote_url(&git(find_remote(&repo, origin))?);
    Ok(fast_forward_of(url, commits, from, to))
}

} // verus!
