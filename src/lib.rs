//! Workspace sync for a tree of git repositories: planning a concurrent sync
//! run, pulling and probing each repository, describing the results, and the
//! state machine of the interactive result browser, with their contracts.

pub mod browser;
pub mod git;
pub mod host;
pub mod indicator;
pub mod layout;
pub mod paging;
pub mod pull;
pub mod status;
pub mod summary;
pub mod sync;
pub mod text;

pub use browser::{Key, ResultBrowser, RowContent};
pub use host::RemoteHost;
pub use indicator::SyncIndicator;
pub use layout::{layout_for_height, LayoutMode, Size};
pub use paging::{InterfaceState, PagingResults};
pub use pull::{pull_ff, PullError, PullResult};
pub use status::{status, LocalChanges, RepoState, StatusError};
pub use summary::SyncResultWidget;
pub use sync::{
    plan_sync, run_summary, sync_repo, RunSummary, Sync, SyncJob, SyncKind, SyncOptions, SyncPlan,
    SyncResult, WorkspaceRepo,
};
