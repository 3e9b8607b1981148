use vstd::prelude::*;

use crate::pull::PullResult;
use crate::status::LocalChanges;
use crate::sync::{SyncKind, SyncResult};

verus! {

/// The one-glyph verdict shown beside a repository's result.
#[derive(Clone, Copy, Debug, PartialEq, Eq, Structural)]
pub enum SyncIndicator {
    /// Pulled or up to date, with no local changes.
    Clean,
    /// The pull did not bring the branch up to date.
    Error,
    /// Pulled or up to date, with local changes.
    LocalChanges,
    /// Not pulled.
    Noop,
}

/// The indicator of a result with sync kind `kind` and local changes
/// `changes`.
pub open spec fn indicator_of(kind: SyncKind, changes: LocalChanges) -> SyncIndicator {
    match kind {
        SyncKind::Pull(pull) => match pull {
            PullResult::FastForward { .. } | PullResult::UpToDate => match changes {
                LocalChanges::Clean => SyncIndicator::Clean,
                LocalChanges::Present { .. } => SyncIndicator::LocalChanges,
            },
            _ => SyncIndicator::Error,
        },
        SyncKind::Skipped => SyncIndicator::Noop,
    }
}

impl<'a> From<&'a SyncResult> for SyncIndicator {
    fn from(sync_result: &'a SyncResult) -> Self {
        match &sync_result.kind {
            SyncKind::Pull(pull_result) => match pull_result {
                PullResult::FastForward { .. } | PullResult::UpToDate => {
                    match sync_result.state.changes {
                        LocalChanges::Clean => SyncIndicator::Clean,
                        LocalChanges::Present { .. } => SyncIndicator::LocalChanges,
                    }
                },
                _ => SyncIndicator::Error,
            },
            SyncKind::Skipped => SyncIndicator::Noop,
        }
    }
}

impl<'a> vstd::std_specs::convert::FromSpecImpl<&'a SyncResult> for SyncIndicator {
    open spec fn obeys_from_spec() -> bool {
        true
    }

    open spec fn from_spec(v: &'a SyncResult) -> Self {
        indicator_of(v.kind, v.state.changes)
    }
}

} // verus!
