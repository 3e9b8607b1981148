//! The calls into libgit2 (through the `git2` crate) that repository probing
//! and pulling rely on. What they return depends on the repository on disk
//! and on the remote, so no item here promises anything of its result; the
//! logic that reads those results is verified where it is called.
use vstd::prelude::*;

verus! {

#[verifier::external_type_specification]
#[verifier::external_body]
pub struct ExRepository(git2::Repository);

#[verifier::external_type_specification]
#[verifier::external_body]
pub struct ExGitError(git2::Error);

/// The options of a working-tree status query.
#[derive(Clone, Copy, Debug, PartialEq, Eq, Structural)]
pub struct StatusQuery {
    pub exclude_submodules: bool,
    pub include_ignored: bool,
    pub include_unmodified: bool,
    pub include_unreadable: bool,
    pub include_untracked: bool,
    pub recurse_untracked_dirs: bool,
    pub no_refresh: bool,
}

/// Relies on `git2::Repository::open`: opens the repository at `path`, or
/// fails.
#[verifier::external_body]
pub(crate) fn open_repository(path: &str) -> (r: Result<git2::Repository, git2::Error>) {
    git2::Repository::open(path)
}

/// Relies on `git2::Error`'s `Display`: the error's message, with its class
/// and code when they are not the generic ones.
#[verifier::external_body]
pub(crate) fn error_text(e: &git2::Error) -> (r: String) {
    e.to_string()
}

/// Relies on `git2::Repository::reflog` of `refs/stash`: the number of its
/// entries, one per stash; libgit2 reads a missing reflog as empty.
#[verifier::external_body]
pub(crate) fn stash_count(repo: &git2::Repository) -> (r: Result<usize, git2::Error>) {
    Ok(repo.reflog("refs/stash")?.len())
}

/// Relies on `git2::Repository::statuses`: the raw status flags of each entry
/// that the query selects.
#[verifier::external_body]
pub(crate) fn status_flags(repo: &git2::Repository, query: StatusQuery) -> (r: Result<
    Vec<u32>,
    git2::Error,
>) {
    let mut opts = git2::StatusOptions::new();
    opts.exclude_submodules(query.exclude_submodules).include_ignored(query.include_ignored);
    opts.include_unmodified(query.include_unmodified).include_unreadable(query.include_unreadable);
    opts.include_untracked(query.include_untracked);
    opts.recurse_untracked_dirs(query.recurse_untracked_dirs).no_refresh(query.no_refresh);
    let statuses = repo.statuses(Some(&mut opts))?;
    Ok(statuses.iter().map(|entry| entry.status().bits()).collect())
}

#[verifier::external_type_specification]
#[verifier::external_body]
pub struct ExRemote<'repo>(git2::Remote<'repo>);

#[verifier::external_type_specification]
#[verifier::external_body]
pub struct ExRemoteCallbacks<'a>(git2::RemoteCallbacks<'a>);

/// What a merge of a fetched commit into `HEAD` would be.
#[derive(Clone, Copy, Debug, PartialEq, Eq, Structural)]
pub struct MergeAnalysisFlags {
    pub up_to_date: bool,
    pub fast_forward: bool,
}

/// Relies on `git2::Repository::head_detached`: whether `HEAD` points at a
/// commit rather than a branch.
#[verifier::external_body]
pub(crate) fn head_detached(repo: &git2::Repository) -> (r: Result<bool, git2::Error>) {
    repo.head_detached()
}

/// Relies on `git2::Repository::find_remote`: the remote called `name`.
#[verifier::external_body]
pub(crate) fn find_remote<'a>(repo: &'a git2::Repository, name: &str) -> (r: Result<
    git2::Remote<'a>,
    git2::Error,
>) {
    repo.find_remote(name)
}

/// Relies on `git2::RemoteCallbacks::credentials`: callbacks that answer a
/// credential request with the keys of the running SSH agent
/// (`git2::Cred::ssh_key_from_agent`).
#[verifier::external_body]
pub(crate) fn agent_auth_callbacks() -> (r: git2::RemoteCallbacks<'static>) {
    let mut callbacks = git2::RemoteCallbacks::new();
    callbacks.credentials(
        |_, username, _| git2::Cred::ssh_key_from_agent(username.unwrap_or_default()),
    );
    callbacks
}

/// Relies on `git2::RemoteConnection::default_branch`, on a connection for
/// fetching opened by `git2::Remote::connect_auth`: the name of the remote's
/// default branch, `None` when it is not UTF-8.
#[verifier::external_body]
pub(crate) fn remote_default_branch(
    remote: &mut git2::Remote<'_>,
    callbacks: git2::RemoteCallbacks<'static>,
) -> (r: Result<Option<String>, git2::Error>) {
    let connection = remote.connect_auth(git2::Direction::Fetch, Some(callbacks), None)?;
    let name = connection.default_branch()?;
    Ok(name.as_str().map(String::from))
}

/// Relies on `git2::Remote::fetch`: fetches `refspec` from the remote.
#[verifier::external_body]
pub(crate) fn fetch_refspec(
    remote: &mut git2::Remote<'_>,
    refspec: &str,
    callbacks: git2::RemoteCallbacks<'static>,
) -> (r: Result<(), git2::Error>) {
    let mut options = git2::FetchOptions::new();
    options.remote_callbacks(callbacks);
    remote.fetch(&[refspec], Some(&mut options), None)
}

/// Relies on `git2::Repository::reference_to_annotated_commit` of the
/// reference `name` (`git2::Repository::find_reference`): the hex id of the
/// commit it points at.
#[verifier::external_body]
pub(crate) fn reference_commit_id(repo: &git2::Repository, name: &str) -> (r: Result<
    String,
    git2::Error,
>) {
    let reference = repo.find_reference(name)?;
    Ok(repo.reference_to_annotated_commit(&reference)?.id().to_string())
}

/// Relies on `git2::Repository::merge_analysis` of the commit that the
/// reference `name` points at.
#[verifier::external_body]
pub(crate) fn merge_analysis(repo: &git2::Repository, name: &str) -> (r: Result<
    MergeAnalysisFlags,
    git2::Error,
>) {
    let commit = repo.reference_to_annotated_commit(&repo.find_reference(name)?)?;
    let (analysis, _) = repo.merge_analysis(&[&commit])?;
    Ok(
        MergeAnalysisFlags {
            up_to_date: analysis.is_up_to_date(),
            fast_forward: analysis.is_fast_forward(),
        },
    )
}

/// Relies on `git2::Reference::set_target`: points the reference `name` at
/// the commit with hex id `target`, with `message` in its reflog.
#[verifier::external_body]
pub(crate) fn set_reference_target(
    repo: &git2::Repository,
    name: &str,
    target: &str,
    message: &str,
) -> (r: Result<(), git2::Error>) {
    let id = git2::Oid::from_str(target)?;
    repo.find_reference(name)?.set_target(id, message)?;
    Ok(())
}

/// Relies on `git2::Repository::set_head`: makes `HEAD` point at the
/// reference `name`.
#[verifier::external_body]
pub(crate) fn set_head(repo: &git2::Repository, name: &str) -> (r: Result<(), git2::Error>) {
    repo.set_head(name)
}

/// Relies on `git2::Repository::checkout_head`: updates the working tree to
/// the commit of `HEAD`.
#[verifier::external_body]
pub(crate) fn checkout_head(repo: &git2::Repository) -> (r: Result<(), git2::Error>) {
    repo.checkout_head(None)
}

/// Relies on `git2::Repository::revwalk`, sorted by time and topology from
/// `HEAD`: the hex ids of `HEAD`'s history, newest first, up to the first
/// commit the walk fails on.
#[verifier::external_body]
pub(crate) fn head_history_ids(repo: &git2::Repository) -> (r: Result<Vec<String>, git2::Error>) {
    let mut walk = repo.revwalk()?;
    walk.set_sorting(git2::Sort::TIME | git2::Sort::TOPOLOGICAL)?;
    walk.push_head()?;
    Ok(walk.map_while(Result::ok).map(|id| id.to_string()).collect())
}

/// Relies on `git2::Object::short_id` of the object that `spec` names
/// (`git2::Repository::revparse_single`): its shortest unambiguous id,
/// `None` when it is not UTF-8.
#[verifier::external_body]
pub(crate) fn short_id(repo: &git2::Repository, spec: &str) -> (r: Result<
    Option<String>,
    git2::Error,
>) {
    let id = repo.revparse_single(spec)?.short_id()?;
    Ok(id.as_str().map(String::from))
}

/// Relies on `git2::Remote::url`: the remote's URL, `None` when it is not
/// UTF-8.
#[verifier::external_body]
pub(crate) fn remote_url(remote: &git2::Remote<'_>) -> (r: Option<String>) {
    remote.url().map(String::from)
}

} // verus!
