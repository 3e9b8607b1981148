//! The text that describes one repository's result, in the browser and in
//! the line printer.
use vstd::prelude::*;
use vstd::string::*;

use crate::indicator::{indicator_of, SyncIndicator};
use crate::layout::{LayoutMode, RESULT_SIZE_COMPACT, RESULT_SIZE_FOCUSED, RESULT_SIZE_UNFOCUSED};
use crate::pull::PullResult;
use crate::status::LocalChanges;
use crate::sync::{SyncKind, SyncResult};
use crate::text::{change_notes, change_notes_of, decimal, decimal_of, join, joined};

verus! {

/// The browser's phrase for what the sync did.
pub open spec fn pull_phrase_of(kind: SyncKind) -> Seq<char> {
    match kind {
        SyncKind::Pull(pull) => match pull {
            PullResult::DetachedHead => "HEAD is detached."@,
            PullResult::Error(msg) => "Failed pulling: "@ + msg@ + "."@,
            PullResult::FastForward { commits, .. } => "Pulled "@ + decimal_of(commits as nat)
                + " commits."@,
            PullResult::UnpullableMerge => "Unable to ff merge changes from remote."@,
            PullResult::UpToDate => "Already up to date."@,
        },
        SyncKind::Skipped => Seq::empty(),
    }
}

/// The browser's phrase for the local changes: empty when clean, else the
/// notes on them in parentheses.
pub open spec fn changes_phrase_of(changes: LocalChanges) -> Seq<char> {
    match changes {
        LocalChanges::Clean => Seq::empty(),
        LocalChanges::Present { .. } => "(local has "@ + joined(
            change_notes_of(changes, "change"@),
            ", "@,
        ) + ")"@,
    }
}

/// The browser's status line of a result: what the sync did, a space, and
/// the local changes.
pub open spec fn status_text_of(kind: SyncKind, changes: LocalChanges) -> Seq<char> {
    pull_phrase_of(kind) + " "@ + changes_phrase_of(changes)
}

/// The line printer's note on what the sync did; none when the branch was
/// up to date or not pulled.
pub open spec fn sync_note_of(kind: SyncKind) -> Option<Seq<char>> {
    match kind {
        SyncKind::Pull(pull) => match pull {
            PullResult::DetachedHead => Some("detached head"@),
            PullResult::Error(msg) => Some(msg@),
            PullResult::FastForward { commits, .. } => Some(
                "pulled "@ + decimal_of(commits as nat) + " commits"@,
            ),
            PullResult::UnpullableMerge => Some("unable to ff merge"@),
            PullResult::UpToDate => None,
        },
        SyncKind::Skipped => None,
    }
}

/// Rows that a result takes in `layout`.
pub open spec fn row_height_of(layout: LayoutMode, focused: bool) -> u16 {
    if layout == LayoutMode::Compact {
        RESULT_SIZE_COMPACT
    } else if focused {
        RESULT_SIZE_FOCUSED
    } else {
        RESULT_SIZE_UNFOCUSED
    }
}

/// The browser's phrase for what the sync did.
pub fn pull_phrase(kind: &SyncKind) -> (r: String)
    ensures
        r@ == pull_phrase_of(*kind),
{
    match kind {
        SyncKind::Pull(pull) => match pull {
            PullResult::DetachedHead => String::from_str("HEAD is detached."),
            PullResult::Error(msg) => {
                let mut text = String::from_str("Failed pulling: ");
                text.append(msg.as_str());
                text.append(".");
                text
            },
            PullResult::FastForward { commits, .. } => {
                let mut text = String::from_str("Pulled ");
                let count = decimal(*commits as u128);
                text.append(count.as_str());
                text.append(" commits.");
                text
            },
            PullResult::UnpullableMerge => String::from_str(
                "Unable to ff merge changes from remote.",
            ),
            PullResult::UpToDate => String::from_str("Already up to date."),
        },
        SyncKind::Skipped => String::new(),
    }
}

/// The browser's phrase for the local changes.
pub fn changes_phrase(changes: &LocalChanges) -> (r: String)
    ensures
        r@ == changes_phrase_of(*changes),
{
    match changes {
        LocalChanges::Clean => String::new(),
        LocalChanges::Present { .. } => {
            let notes = change_notes(changes, "change");
            let mut text = String::from_str("(local has ");
            let list = join(&notes, ", ");
            text.append(list.as_str());
            text.append(")");
            text
        },
    }
}

/// The line printer's note on what the sync did.
pub fn sync_note(kind: &SyncKind) -> (r: Option<String>)
    ensures
        match sync_note_of(*kind) {
            Some(note) => r is Some && r->Some_0@ == note,
            None => r is None,
        },
{
    match kind {
        SyncKind::Pull(pull) => match pull {
            PullResult::DetachedHead => Some(String::from_str("detached head")),
            PullResult::Error(msg) => Some(msg.clone()),
            PullResult::FastForward { commits, .. } => {
                let mut text = String::from_str("pulled ");
                let count = decimal(*commits as u128);
                text.append(count.as_str());
                text.append(" commits");
                Some(text)
            },
            PullResult::UnpullableMerge => Some(String::from_str("unable to ff merge")),
            PullResult::UpToDate => None,
        },
        SyncKind::Skipped => None,
    }
}

/// The line printer's notes on a result: its sync note, if any, then its
/// notes on local changes, which count changed files as local changes.
pub fn print_notes(result: &SyncResult) -> (r: Vec<String>)
    ensures
        r@.map_values(|p: String| p@) == match sync_note_of(result.kind) {
            Some(note) => seq![note] + change_notes_of(result.state.changes, "local change"@),
            None => change_notes_of(result.state.changes, "local change"@),
        },
{
    let mut notes: Vec<String> = Vec::new();
    if let Some(note) = sync_note(&result.kind) {
        notes.push(note);
    }
    let changes = change_notes(&result.state.changes, "local change");
    let mut i: usize = 0;
    let ghost first = notes@;
    while i < changes.len()
        invariant
            i <= changes@.len(),
            notes@ == first + changes@.subrange(0, i as int),
        decreases changes@.len() - i,
    {
        notes.push(changes[i].clone());
        i = i + 1;
        assert(notes@ =~= first + changes@.subrange(0, i as int));
    }
    assert(changes@.subrange(0, changes@.len() as int) =~= changes@);
    assert(notes@.map_values(|p: String| p@) =~= first.map_values(|p: String| p@)
        + changes@.map_values(|p: String| p@));
    notes
}

/// One result as the browser shows it: a row with the repository's label,
/// then a row with the indicator and the status line.
pub struct SyncResultWidget<'a> {
    pub focused: bool,
    pub layout: &'a LayoutMode,
    pub result: &'a SyncResult,
}

impl<'a> SyncResultWidget<'a> {
    pub fn new(focused: bool, layout: &'a LayoutMode, result: &'a SyncResult) -> (r: Self)
        ensures
            r.focused == focused,
            *r.layout == *layout,
            *r.result == *result,
    {
        SyncResultWidget { focused, layout, result }
    }

    /// Rows the widget takes: compact rows in the compact layout, else a
    /// focused or unfocused row.
    pub fn row_height(&self) -> (r: u16)
        ensures
            r == row_height_of(*self.layout, self.focused),
    {
        if *self.layout == LayoutMode::Compact {
            RESULT_SIZE_COMPACT
        } else if self.focused {
            RESULT_SIZE_FOCUSED
        } else {
            RESULT_SIZE_UNFOCUSED
        }
    }

    /// The verdict beside the status line.
    pub fn indicator(&self) -> (r: SyncIndicator)
        ensures
            r == indicator_of(self.result.kind, self.result.state.changes),
    {
        SyncIndicator::from(self.result)
    }

    /// The status line: what the sync did, a space, and the local changes.
    pub fn status_text(&self) -> (r: String)
        ensures
            r@ == status_text_of(self.result.kind, self.result.state.changes),
    {
        let mut text = pull_phrase(&self.result.kind);
        text.append(" ");
        let changes = changes_phrase(&self.result.state.changes);
        text.append(changes.as_str());
        text
    }
}

} // verus!
