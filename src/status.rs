use vstd::prelude::*;

use crate::git::{open_repository, stash_count, status_flags, StatusQuery};

verus! {

/// Flag of an entry added to the index.
pub const STATUS_INDEX_NEW: u32 = 1;

/// Flag of an entry modified in the index.
pub const STATUS_INDEX_MODIFIED: u32 = 2;

/// Flag of an entry deleted from the index.
pub const STATUS_INDEX_DELETED: u32 = 4;

/// Flag of an entry renamed in the index.
pub const STATUS_INDEX_RENAMED: u32 = 8;

/// Flag of an entry whose type changed in the index.
pub const STATUS_INDEX_TYPECHANGE: u32 = 16;

/// Flag of an untracked file in the working tree.
pub const STATUS_WT_NEW: u32 = 128;

/// Flag of a file modified in the working tree.
pub const STATUS_WT_MODIFIED: u32 = 256;

/// Flag of a file deleted from the working tree.
pub const STATUS_WT_DELETED: u32 = 512;

/// Flag of a file whose type changed in the working tree.
pub const STATUS_WT_TYPECHANGE: u32 = 1024;

/// Flag of a file renamed in the working tree.
pub const STATUS_WT_RENAMED: u32 = 2048;

/// All flags of staged changes.
pub const STAGED_FLAGS: u32 = STATUS_INDEX_NEW | STATUS_INDEX_MODIFIED | STATUS_INDEX_DELETED
    | STATUS_INDEX_RENAMED | STATUS_INDEX_TYPECHANGE;

/// All flags of unstaged changes to tracked files.
pub const UNSTAGED_FLAGS: u32 = STATUS_WT_MODIFIED | STATUS_WT_DELETED | STATUS_WT_RENAMED
    | STATUS_WT_TYPECHANGE;

/// Uncommitted work in a repository.
#[derive(Clone, Copy, Debug, PartialEq, Eq, Structural)]
pub enum LocalChanges {
    Clean,
    Present { stashes: usize, staged: usize, unstaged: usize, untracked: usize },
}

/// Local state of a repository after its sync.
#[derive(Clone, Copy, Debug, PartialEq, Eq, Structural)]
pub struct RepoState {
    pub changes: LocalChanges,
}

/// How one status entry counts.
#[derive(Clone, Copy, Debug, PartialEq, Eq, Structural)]
pub enum ChangeKind {
    Staged,
    Unstaged,
    Untracked,
    Unchanged,
}

/// Why the local state of a repository could not be read.
#[derive(Debug)]
pub enum StatusError {
    Git(git2::Error),
}

impl LocalChanges {
    /// `Present` is only used when some counter is nonzero.
    pub open spec fn wf(self) -> bool {
        match self {
            LocalChanges::Clean => true,
            LocalChanges::Present { stashes, staged, unstaged, untracked } => stashes != 0
                || staged != 0 || unstaged != 0 || untracked != 0,
        }
    }

    /// The changes with these counters: `Clean` when all four are zero,
    /// else `Present` with exactly these counters.
    pub open spec fn of_counts(stashes: usize, staged: usize, unstaged: usize, untracked: usize) -> LocalChanges {
        if stashes == 0 && staged == 0 && unstaged == 0 && untracked == 0 {
            LocalChanges::Clean
        } else {
            LocalChanges::Present { stashes, staged, unstaged, untracked }
        }
    }

    /// Builds the changes from the four counters, normalising all-zero to
    /// `Clean`.
    pub fn from_counts(stashes: usize, staged: usize, unstaged: usize, untracked: usize) -> (r: Self)
        ensures
            r == LocalChanges::of_counts(stashes, staged, unstaged, untracked),
            r.wf(),
            (r == LocalChanges::Clean) <==> (stashes == 0 && staged == 0 && unstaged == 0
                && untracked == 0),
    {
        if stashes == 0 && staged == 0 && unstaged == 0 && untracked == 0 {
            LocalChanges::Clean
        } else {
            LocalChanges::Present { stashes, staged, unstaged, untracked }
        }
    }
}

/// How an entry with status flags `bits` counts: staged if any index flag is
/// set, else unstaged if a tracked file changed in the working tree, else
/// untracked if the file is new, else not at all.
pub open spec fn change_kind_of(bits: u32) -> ChangeKind {
    if bits & STAGED_FLAGS != 0 {
        ChangeKind::Staged
    } else if bits & UNSTAGED_FLAGS != 0 {
        ChangeKind::Unstaged
    } else if bits & STATUS_WT_NEW != 0 {
        ChangeKind::Untracked
    } else {
        ChangeKind::Unchanged
    }
}

/// Number of entries of `flags` that count as `kind`.
pub open spec fn count_kind(flags: Seq<u32>, kind: ChangeKind) -> nat
    decreases flags.len(),
{
    if flags.len() == 0 {
        0
    } else {
        count_kind(flags.drop_last(), kind) + if change_kind_of(flags.last()) == kind {
            1nat
        } else {
            0nat
        }
    }
}

proof fn lemma_count_kind_bound(flags: Seq<u32>, kind: ChangeKind)
    ensures
        count_kind(flags, kind) <= flags.len(),
    decreases flags.len(),
{
    if flags.len() > 0 {
        lemma_count_kind_bound(flags.drop_last(), kind);
    }
}

/// Classifies one status entry.
pub fn classify_status(bits: u32) -> (r: ChangeKind)
    ensures
        r == change_kind_of(bits),
{
    if bits & STAGED_FLAGS != 0 {
        ChangeKind::Staged
    } else if bits & UNSTAGED_FLAGS != 0 {
        ChangeKind::Unstaged
    } else if bits & STATUS_WT_NEW != 0 {
        ChangeKind::Untracked
    } else {
        ChangeKind::Unchanged
    }
}

/// The local changes of a repository with `stashes` stash entries and
/// status entries flagged `flags`.
pub fn tally_changes(stashes: usize, flags: &Vec<u32>) -> (r: LocalChanges)
    ensures
        r == LocalChanges::of_counts(
            stashes,
            count_kind(flags@, ChangeKind::Staged) as usize,
            count_kind(flags@, ChangeKind::Unstaged) as usize,
            count_kind(flags@, ChangeKind::Untracked) as usize,
        ),
        r.wf(),
{
    let mut staged: usize = 0;
    let mut unstaged: usize = 0;
    let mut untracked: usize = 0;
    let mut i: usize = 0;
    while i < flags.len()
        invariant
            i <= flags@.len(),
            staged == count_kind(flags@.subrange(0, i as int), ChangeKind::Staged),
            unstaged == count_kind(flags@.subrange(0, i as int), ChangeKind::Unstaged),
            untracked == count_kind(flags@.subrange(0, i as int), ChangeKind::Untracked),
        decreases flags@.len() - i,
    {
        proof {
            let prefix = flags@.subrange(0, i as int);
            let next = flags@.subrange(0, i + 1);
            assert(next.drop_last() =~= prefix);
            lemma_count_kind_bound(prefix, ChangeKind::Staged);
            lemma_count_kind_bound(prefix, ChangeKind::Unstaged);
            lemma_count_kind_bound(prefix, ChangeKind::Untracked);
        }
        match classify_status(flags[i]) {
            ChangeKind::Staged => staged = staged + 1,
            ChangeKind::Unstaged => unstaged = unstaged + 1,
            ChangeKind::Untracked => untracked = untracked + 1,
            ChangeKind::Unchanged => {},
        }
        i = i + 1;
    }
    assert(flags@.subrange(0, flags@.len() as int) =~= flags@);
    LocalChanges::from_counts(stashes, staged, unstaged, untracked)
}

/// The status query of a probe: untracked files listed with their
/// directories recursed, ignored, unmodified and unreadable files and
/// submodules left out, the index not refreshed.
pub fn probe_query() -> (r: StatusQuery)
    ensures
        r == (StatusQuery {
            exclude_submodules: true,
            include_ignored: false,
            include_unmodified: false,
            include_unreadable: false,
            include_untracked: true,
            recurse_untracked_dirs: true,
            no_refresh: true,
        }),
{
    StatusQuery {
        exclude_submodules: true,
        include_ignored: false,
        include_unmodified: false,
        include_unreadable: false,
        include_untracked: true,
        recurse_untracked_dirs: true,
        no_refresh: true,
    }
}

/// Reads the local changes of the repository at `path`: its stash entries
/// and the staged, unstaged and untracked files of its working tree. The
/// repository is not modified.
pub fn status(path: &str) -> (r: Result<RepoState, StatusError>)
    ensures
        r is Ok ==> r->Ok_0.changes.wf(),
{
    let repo = match open_repository(path) {
        Ok(repo) => repo,
        Err(e) => return Err(StatusError::Git(e)),
    };
    let stashes = match stash_count(&repo) {
        Ok(count) => count,
        Err(e) => return Err(StatusError::Git(e)),
    };
    let flags = match status_flags(&repo, probe_query()) {
        Ok(flags) => flags,
        Err(e) => return Err(StatusError::Git(e)),
    };
    Ok(RepoState { changes: tally_changes(stashes, &flags) })
}

} // verus!
