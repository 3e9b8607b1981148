//! State machine of the interactive result browser: layout, pagination and
//! cursor, fed by terminal sizes, key presses and arriving results.
use vstd::prelude::*;
use vstd::string::*;

use crate::host::{compare_url_of, RemoteHost};
use crate::layout::{
    layout_fits, layout_for_height, layout_of_height, LayoutMode, Size, RESULT_SIZE_COMPACT,
    RESULT_SIZE_FOCUSED, RESULT_SIZE_UNFOCUSED,
};
use crate::paging::{ceil_div, min_int, paging_of, InterfaceState, PagingResults};
use crate::pull::PullResult;
use crate::sync::{SyncKind, SyncResult};
use crate::text::{decimal, decimal_of};

verus! {

/// A key press, as the browser reads it.
#[derive(Clone, Copy, Debug, PartialEq, Eq, Structural)]
pub enum Key {
    /// Leave the browser.
    Quit,
    /// Open the focused result's compare page.
    Compare,
    Up,
    Down,
    Left,
    Right,
    /// Any other key: ignored.
    Other,
}

/// What one row of the current page shows.
#[derive(Clone, Copy, Debug, PartialEq, Eq, Structural)]
pub enum RowContent {
    /// The repository's result has not arrived yet.
    Placeholder,
    /// The result at `index` of the received results, under the cursor or
    /// not.
    Result { index: usize, focused: bool },
}

/// The row for repository index `i` when `received` results have arrived and
/// the cursor is at `cursor`.
pub open spec fn row_content_of(received: int, cursor: int, i: int) -> RowContent {
    if i < received {
        RowContent::Result { index: i as usize, focused: i == cursor }
    } else {
        RowContent::Placeholder
    }
}

/// The result browser's state.
pub struct ResultBrowser {
    /// Terminal size of the last frame that was laid out.
    pub area: Size,
    /// Set when the browser should close.
    pub exit: bool,
    /// Set when every sync task has finished.
    pub finished: bool,
    pub layout: LayoutMode,
    /// Results received so far, in arrival order.
    pub results: Vec<SyncResult>,
    /// Number of repositories being synced.
    pub repos_count: usize,
    pub state: InterfaceState,
}

impl InterfaceState {
    pub open spec fn cursor(self) -> usize {
        match self {
            InterfaceState::ResultListing { cursor, .. } => cursor,
        }
    }

    pub open spec fn page(self) -> PagingResults {
        match self {
            InterfaceState::ResultListing { page, .. } => page,
        }
    }
}

/// The state after navigation key `key`: the cursor moves up or down within
/// its page, or the page turns, when that is allowed; otherwise nothing
/// changes.
pub open spec fn navigate(state: InterfaceState, key: Key) -> InterfaceState {
    let cursor = state.cursor();
    let page = state.page();
    match key {
        Key::Up => if cursor > page.page_start_index {
            InterfaceState::ResultListing { cursor: (cursor - 1) as usize, page }
        } else {
            state
        },
        Key::Down => if cursor + 1 < page.page_end() {
            InterfaceState::ResultListing { cursor: (cursor + 1) as usize, page }
        } else {
            state
        },
        Key::Left => if page.page_start_index >= page.page_size {
            InterfaceState::ResultListing {
                cursor: (cursor - page.page_size) as usize,
                page: PagingResults {
                    page_start_index: (page.page_start_index - page.page_size) as usize,
                    ..page
                },
            }
        } else {
            state
        },
        Key::Right => if page.page_start_index + page.page_size < page.repos_count {
            InterfaceState::ResultListing {
                cursor: min_int(cursor + page.page_size, page.repos_count - 1) as usize,
                page: PagingResults {
                    page_start_index: (page.page_start_index + page.page_size) as usize,
                    ..page
                },
            }
        } else {
            state
        },
        _ => state,
    }
}

/// The compare page of the result at `index` of `results`: present when that
/// result is a fast-forward pulled from a host with compare pages.
pub open spec fn compare_url_for(results: Seq<SyncResult>, index: int) -> Option<Seq<char>> {
    if 0 <= index < results.len() {
        match results[index].kind {
            SyncKind::Pull(PullResult::FastForward { remote, from, to, .. }) => match remote {
                RemoteHost::GitHub { owner, name } => Some(
                    compare_url_of(owner@, name@, from@, to@),
                ),
                RemoteHost::Other => None,
            },
            _ => None,
        }
    } else {
        None
    }
}

impl ResultBrowser {
    /// The cursor points at a repository and lies on its page; once laid out,
    /// the pagination is well formed.
    pub open spec fn wf(&self) -> bool {
        let cursor = self.state.cursor();
        let page = self.state.page();
        &&& 0 < self.repos_count <= isize::MAX
        &&& cursor < self.repos_count
        &&& page.repos_count == self.repos_count
        &&& page.page_size == 0 ==> page.page_start_index == 0 && cursor == 0
        &&& page.page_size > 0 ==> {
            &&& page.wf()
            &&& page.page_start_index <= cursor < page.page_start_index + page.page_size
        }
    }

    /// The browser before its first frame: cursor on the first repository,
    /// no result yet.
    pub fn new(repos_count: usize) -> (r: Self)
        requires
            0 < repos_count <= isize::MAX,
        ensures
            r.wf(),
            r.area == (Size { w: 0, h: 0 }),
            !r.exit,
            !r.finished,
            r.layout == LayoutMode::Comfortable,
            r.results@.len() == 0,
            r.repos_count == repos_count,
            r.state.cursor() == 0,
    {
        ResultBrowser {
            area: Size { w: 0, h: 0 },
            exit: false,
            finished: false,
            layout: LayoutMode::Comfortable,
            results: Vec::new(),
            repos_count,
            state: InterfaceState::ResultListing {
                cursor: 0,
                page: PagingResults { repos_count, page_size: 0, page_start_index: 0 },
            },
        }
    }

    /// Picks the layout for a terminal `h` rows tall.
    pub fn update_layout(&mut self, h: u16)
        ensures
            final(self).layout == layout_of_height(h as int),
            final(self).area == old(self).area,
            final(self).state == old(self).state,
            final(self).results == old(self).results,
            final(self).repos_count == old(self).repos_count,
            final(self).exit == old(self).exit,
            final(self).finished == old(self).finished,
    {
        self.layout = layout_for_height(h);
    }

    /// Takes in a new terminal size. When it differs from the last one, the
    /// layout is chosen anew and, unless it is `Break`, the size is kept and
    /// the pagination recomputed around the same cursor.
    pub fn update_frame_size(&mut self, w: u16, h: u16)
        requires
            old(self).wf(),
        ensures
            final(self).wf(),
            final(self).state.cursor() == old(self).state.cursor(),
            final(self).results == old(self).results,
            final(self).repos_count == old(self).repos_count,
            final(self).exit == old(self).exit,
            final(self).finished == old(self).finished,
            old(self).area == (Size { w, h }) ==> final(self).layout == old(self).layout
                && final(self).state == old(self).state && final(self).area == old(self).area,
            old(self).area != (Size { w, h }) ==> final(self).layout == layout_of_height(h as int),
            old(self).area != (Size { w, h }) && layout_of_height(h as int) == LayoutMode::Break
                ==> final(self).state == old(self).state && final(self).area == old(self).area,
            old(self).area != (Size { w, h }) && layout_of_height(h as int) != LayoutMode::Break
                ==> final(self).area == (Size { w, h }) && final(self).state
                == (InterfaceState::ResultListing {
                cursor: old(self).state.cursor(),
                page: paging_of(old(self).state.cursor(), old(self).repos_count, final(self).layout, h as int),
            }),
    {
        if self.area.w != w || self.area.h != h {
            self.update_layout(h);
            if self.layout == LayoutMode::Break {
                return;
            }
            self.area = Size { w, h };
            let cursor = match &self.state {
                InterfaceState::ResultListing { cursor, .. } => *cursor,
            };
            let page = PagingResults::calc(&cursor, self.repos_count, &self.layout, &self.area);
            self.state = InterfaceState::ResultListing { cursor, page };
        }
    }

    /// Keeps a result that arrived.
    pub fn handle_sync_result(&mut self, sync_result: SyncResult)
        ensures
            final(self).results@ == old(self).results@.push(sync_result),
            final(self).state == old(self).state,
            final(self).area == old(self).area,
            final(self).layout == old(self).layout,
            final(self).repos_count == old(self).repos_count,
            final(self).exit == old(self).exit,
            final(self).finished == old(self).finished,
    {
        self.results.push(sync_result);
    }

    /// Notes that every sync task has finished.
    pub fn finish(&mut self)
        ensures
            final(self).finished,
            final(self).state == old(self).state,
            final(self).results == old(self).results,
            final(self).area == old(self).area,
            final(self).layout == old(self).layout,
            final(self).repos_count == old(self).repos_count,
            final(self).exit == old(self).exit,
    {
        self.finished = true;
    }

    /// Whether the result at `cursor` has a compare page to open.
    pub fn has_compare_url(&self, cursor: usize) -> (r: bool)
        ensures
            r == (compare_url_for(self.results@, cursor as int) is Some),
    {
        if cursor < self.results.len() {
            if let SyncKind::Pull(PullResult::FastForward { remote, .. }) = &self.results[cursor].kind {
                remote.has_compare_url()
            } else {
                false
            }
        } else {
            false
        }
    }

    /// The compare page of the result at `cursor`, if it has one.
    pub fn compare_url(&self, cursor: usize) -> (r: Option<String>)
        ensures
            match compare_url_for(self.results@, cursor as int) {
                Some(url) => r is Some && r->Some_0@ == url,
                None => r is None,
            },
    {
        if cursor < self.results.len() {
            if let SyncKind::Pull(PullResult::FastForward { remote, from, to, .. }) =
                &self.results[cursor].kind {
                if remote.has_compare_url() {
                    return Some(remote.compare_url(from.as_str(), to.as_str()));
                }
            }
        }
        None
    }

    /// Reacts to a key press: quitting sets `exit`; the navigation keys move
    /// the cursor or turn the page as [`navigate`] says; the compare key
    /// returns the focused result's compare page, for the caller to open.
    pub fn handle_key(&mut self, key: Key) -> (r: Option<String>)
        requires
            old(self).wf(),
        ensures
            final(self).wf(),
            final(self).exit == (old(self).exit || key == Key::Quit),
            final(self).state == navigate(old(self).state, key),
            key == Key::Compare ==> match compare_url_for(old(self).results@, old(self).state.cursor() as int) {
                Some(url) => r is Some && r->Some_0@ == url,
                None => r is None,
            },
            key != Key::Compare ==> r is None,
            final(self).results == old(self).results,
            final(self).area == old(self).area,
            final(self).layout == old(self).layout,
            final(self).repos_count == old(self).repos_count,
            final(self).finished == old(self).finished,
    {
        let (cursor, page) = match &self.state {
            InterfaceState::ResultListing { cursor, page } => (*cursor, *page),
        };
        proof {
            if page.page_size > 0 {
                lemma_turn_page(page.page_start_index as int, page.page_size as int);
            }
        }
        match key {
            Key::Quit => {
                self.exit = true;
                None
            },
            Key::Compare => self.compare_url(cursor),
            Key::Up => {
                if cursor > page.page_start_index {
                    self.state = page.prev_repo(&cursor);
                }
                None
            },
            Key::Down => {
                if page.can_next_repo(&cursor) {
                    self.state = page.next_repo(&cursor);
                }
                None
            },
            Key::Left => {
                if page.can_prev_page() {
                    self.state = page.prev_page(&cursor);
                }
                None
            },
            Key::Right => {
                if page.can_next_page() {
                    self.state = page.next_page(&cursor);
                }
                None
            },
            Key::Other => None,
        }
    }

    /// Number of repositories whose result has not arrived yet.
    pub fn remaining(&self) -> (r: usize)
        ensures
            r == if self.results@.len() < self.repos_count {
                self.repos_count - self.results@.len()
            } else {
                0
            },
    {
        if self.results.len() < self.repos_count {
            self.repos_count - self.results.len()
        } else {
            0
        }
    }

    /// Footer text on the pages, present when there is more than one page.
    pub fn page_label(&self) -> (r: Option<String>)
        requires
            self.state.page().page_size > 0,
        ensures
            ({
                let page = self.state.page();
                let count = ceil_div(page.repos_count as int, page.page_size as int);
                if count > 1 {
                    r is Some && r->Some_0@ == "Page "@ + decimal_of(
                        (page.page_start_index / page.page_size) as nat,
                    ) + " of "@ + decimal_of(count as nat)
                } else {
                    r is None
                }
            }),
    {
        let page = match &self.state {
            InterfaceState::ResultListing { page, .. } => page,
        };
        let count = page.page_count();
        if count > 1 {
            let mut text = String::from_str("Page ");
            let current = decimal(page.current_page() as u128);
            text.append(current.as_str());
            text.append(" of ");
            let total = decimal(count as u128);
            text.append(total.as_str());
            Some(text)
        } else {
            None
        }
    }

    /// Footer text on the sync in flight, present until every task has
    /// finished.
    pub fn syncing_label(&self) -> (r: Option<String>)
        ensures
            self.finished ==> r is None,
            !self.finished ==> r is Some && r->Some_0@ == "Syncing "@ + decimal_of(
                (if self.results@.len() < self.repos_count {
                    self.repos_count - self.results@.len()
                } else {
                    0
                }) as nat,
            ) + " repositories"@,
    {
        if self.finished {
            None
        } else {
            let mut text = String::from_str("Syncing ");
            let count = decimal(self.remaining() as u128);
            text.append(count.as_str());
            text.append(" repositories");
            Some(text)
        }
    }

    /// What each row of the current page shows, first row first: the
    /// result of that repository index once it has arrived, focused where
    /// the cursor is, else a placeholder.
    pub fn page_rows(&self) -> (r: Vec<RowContent>)
        requires
            self.wf(),
        ensures
            r@.len() == self.state.page().page_end() - self.state.page().page_start_index,
            forall|k: int|
                0 <= k < r@.len() ==> #[trigger] r@[k] == row_content_of(
                    self.results@.len() as int,
                    self.state.cursor() as int,
                    self.state.page().page_start_index + k,
                ),
    {
        let (cursor, page) = match &self.state {
            InterfaceState::ResultListing { cursor, page } => (*cursor, *page),
        };
        let range = page.current_page_range();
        let mut rows: Vec<RowContent> = Vec::new();
        let mut i = range.start;
        while i < range.end
            invariant
                range.start == page.page_start_index,
                range.end == page.page_end(),
                range.start <= i,
                i <= range.end || i == range.start,
                rows@.len() == i - range.start,
                forall|k: int|
                    0 <= k < rows@.len() ==> #[trigger] rows@[k] == row_content_of(
                        self.results@.len() as int,
                        cursor as int,
                        range.start + k,
                    ),
            decreases range.end - i,
        {
            if i < self.results.len() {
                rows.push(RowContent::Result { index: i, focused: i == cursor });
            } else {
                rows.push(RowContent::Placeholder);
            }
            i = i + 1;
        }
        rows
    }

    /// Heights of the rows of the current page: in the comfortable layout
    /// one row per result on the page, the focused one taller; in the
    /// compact layout a full page of compact rows.
    pub fn row_heights(&self) -> (r: Vec<u16>)
        requires
            self.wf(),
            self.state.page().page_size > 0,
            self.layout != LayoutMode::Break,
        ensures
            self.layout == LayoutMode::Compact ==> r@ == Seq::new(
                self.state.page().page_size as nat,
                |i: int| RESULT_SIZE_COMPACT,
            ),
            self.layout == LayoutMode::Comfortable ==> r@ == Seq::new(
                self.state.page().page_len() as nat,
                |i: int|
                    if i == self.state.cursor() % self.state.page().page_size {
                        RESULT_SIZE_FOCUSED
                    } else {
                        RESULT_SIZE_UNFOCUSED
                    },
            ),
    {
        let (cursor, page) = match &self.state {
            InterfaceState::ResultListing { cursor, page } => (*cursor, *page),
        };
        let mut heights: Vec<u16> = Vec::new();
        if self.layout == LayoutMode::Compact {
            let mut i: usize = 0;
            while i < page.page_size
                invariant
                    i <= page.page_size,
                    heights@ == Seq::new(i as nat, |k: int| RESULT_SIZE_COMPACT),
                decreases page.page_size - i,
            {
                heights.push(RESULT_SIZE_COMPACT);
                i = i + 1;
                assert(heights@ =~= Seq::new(i as nat, |k: int| RESULT_SIZE_COMPACT));
            }
        } else {
            let focus = page.cursor_within_page(&cursor);
            let n = page.current_page_size();
            let mut i: usize = 0;
            while i < n
                invariant
                    i <= n,
                    focus == cursor % page.page_size,
                    heights@ == Seq::new(
                        i as nat,
                        |k: int|
                            if k == focus {
                                RESULT_SIZE_FOCUSED
                            } else {
                                RESULT_SIZE_UNFOCUSED
                            },
                    ),
                decreases n - i,
            {
                if i == focus {
                    heights.push(RESULT_SIZE_FOCUSED);
                } else {
                    heights.push(RESULT_SIZE_UNFOCUSED);
                }
                i = i + 1;
                assert(heights@ =~= Seq::new(
                    i as nat,
                    |k: int|
                        if k == focus {
                            RESULT_SIZE_FOCUSED
                        } else {
                            RESULT_SIZE_UNFOCUSED
                        },
                ));
            }
        }
        heights
    }
}

/// Turning a page keeps page starts on multiples of the page size.
proof fn lemma_turn_page(start: int, size: int)
    requires
        start >= 0,
        size > 0,
        start % size == 0,
    ensures
        (start + size) % size == 0,
        start >= size ==> (start - size) % size == 0,
{
    vstd::arithmetic::div_mod::lemma_mod_add_multiples_vanish(start, size);
    if start >= size {
        vstd::arithmetic::div_mod::lemma_mod_sub_multiples_vanish(start, size);
    }
}

} // verus!
