use vstd::prelude::*;

use crate::layout::{layout_fits, page_size_for, LayoutMode, Size, FOOTER_HEIGHT, HEADER_HEIGHT,
    RESULT_SIZE_COMPACT, RESULT_SIZE_FOCUSED, RESULT_SIZE_UNFOCUSED};

verus! {

/// Pagination of the result listing: how many repositories there are, how
/// many fit on a page and where the cursor's page starts.
#[derive(Clone, Copy, Debug, PartialEq, Eq, Structural)]
pub struct PagingResults {
    pub repos_count: usize,
    pub page_size: usize,
    pub page_start_index: usize,
}

/// State of the result browser.
#[derive(Clone, Copy, Debug, PartialEq, Eq, Structural)]
pub enum InterfaceState {
    ResultListing { cursor: usize, page: PagingResults },
}

pub open spec fn min_int(a: int, b: int) -> int {
    if a <= b {
        a
    } else {
        b
    }
}

/// Number of pages needed for `count` items, `size` per page.
pub open spec fn ceil_div(count: int, size: int) -> int {
    if count % size == 0 {
        count / size
    } else {
        count / size + 1
    }
}

/// The pagination for `cursor` among `count` repositories in `layout` on a
/// terminal `h` rows tall.
pub open spec fn paging_of(cursor: usize, count: usize, layout: LayoutMode, h: int) -> PagingResults {
    let size = page_size_for(layout, h);
    PagingResults {
        repos_count: count,
        page_size: size as usize,
        page_start_index: ((cursor as int / size) * size) as usize,
    }
}

impl PagingResults {
    /// Pages are whole multiples of the page size, and a page never runs past
    /// the end of the index range.
    pub open spec fn wf(self) -> bool {
        &&& self.page_size > 0
        &&& self.page_start_index % self.page_size == 0
        &&& self.page_start_index <= self.repos_count
        &&& self.page_start_index + self.page_size <= usize::MAX
    }

    /// End (exclusive) of the current page's index range.
    pub open spec fn page_end(self) -> int {
        min_int(self.page_start_index + self.page_size, self.repos_count as int)
    }

    /// Number of results on the current page.
    pub open spec fn page_len(self) -> int {
        min_int(self.repos_count - self.page_start_index, self.page_size as int)
    }

    /// Computes the pagination that keeps `cursor` visible for `repos_count`
    /// results in `layout` on a terminal of `size`.
    pub fn calc(cursor: &usize, repos_count: usize, layout: &LayoutMode, size: &Size) -> (r: Self)
        requires
            layout_fits(*layout, size.h as int),
        ensures
            r == paging_of(*cursor, repos_count, *layout, size.h as int),
            r.repos_count == repos_count,
            r.page_size == page_size_for(*layout, size.h as int),
            r.page_size > 0,
            r.page_start_index == (*cursor / r.page_size) * r.page_size,
            r.page_start_index <= *cursor < r.page_start_index + r.page_size,
            r.page_start_index % r.page_size == 0,
    {
        let content_h: u16 = size.h - HEADER_HEIGHT - FOOTER_HEIGHT;
        let page_size: u16 = if *layout == LayoutMode::Compact {
            (content_h - RESULT_SIZE_COMPACT) / (RESULT_SIZE_COMPACT + 1) + 1
        } else {
            (content_h - RESULT_SIZE_FOCUSED) / (RESULT_SIZE_UNFOCUSED + 1) + 1
        };
        let page_size = page_size as usize;
        proof {
            lemma_page_start(*cursor as int, page_size as int);
        }
        let page_start_index = (*cursor / page_size) * page_size;
        PagingResults { page_start_index, page_size, repos_count }
    }

    /// Whether a page follows the current one.
    pub fn can_next_page(&self) -> (r: bool)
        requires
            self.page_start_index + self.page_size <= usize::MAX,
        ensures
            r == (self.page_start_index + self.page_size < self.repos_count),
    {
        self.page_start_index + self.page_size < self.repos_count
    }

    /// Whether the cursor can move down within the current page.
    pub fn can_next_repo(&self, cursor: &usize) -> (r: bool)
        requires
            self.page_start_index + self.page_size <= usize::MAX,
            *cursor < usize::MAX,
        ensures
            r == (*cursor + 1 < self.page_end()),
    {
        *cursor + 1 < self.current_page_range().end
    }

    /// Whether a page precedes the current one.
    pub fn can_prev_page(&self) -> (r: bool)
        requires
            self.page_start_index < usize::MAX,
        ensures
            r == (self.page_start_index >= self.page_size),
    {
        self.page_start_index + 1 > self.page_size
    }

    /// Zero-based number of the current page.
    pub fn current_page(&self) -> (r: usize)
        requires
            self.page_size > 0,
        ensures
            r == self.page_start_index / self.page_size,
    {
        self.page_start_index / self.page_size
    }

    /// Number of results on the current page.
    pub fn current_page_size(&self) -> (r: usize)
        requires
            self.page_start_index <= self.repos_count,
        ensures
            r == self.page_len(),
    {
        let rest = self.repos_count - self.page_start_index;
        if rest < self.page_size {
            rest
        } else {
            self.page_size
        }
    }

    /// Index range of the results on the current page.
    pub fn current_page_range(&self) -> (r: std::ops::Range<usize>)
        requires
            self.page_start_index + self.page_size <= usize::MAX,
        ensures
            r.start == self.page_start_index,
            r.end == self.page_end(),
    {
        let end = self.page_start_index + self.page_size;
        let end = if end < self.repos_count {
            end
        } else {
            self.repos_count
        };
        std::ops::Range { start: self.page_start_index, end }
    }

    /// Position of `cursor` within its page.
    pub fn cursor_within_page(&self, cursor: &usize) -> (r: usize)
        requires
            self.page_size > 0,
        ensures
            r == *cursor % self.page_size,
    {
        *cursor % self.page_size
    }

    /// Number of pages: the repository count divided by the page size,
    /// rounded up.
    pub fn page_count(&self) -> (r: usize)
        requires
            self.page_size > 0,
        ensures
            r == ceil_div(self.repos_count as int, self.page_size as int),
    {
        let divide = self.repos_count / self.page_size;
        proof {
            if self.repos_count % self.page_size != 0 {
                assert(self.page_size > 1);
                assert(divide < self.repos_count) by (nonlinear_arith)
                    requires
                        divide == self.repos_count / self.page_size,
                        self.page_size > 1,
                        self.repos_count % self.page_size != 0,
                ;
            }
        }
        if self.repos_count % self.page_size == 0 {
            divide
        } else {
            divide + 1
        }
    }

    /// Moves to the next page, the cursor by one page size but not past the
    /// last result.
    pub fn next_page(&self, cursor: &usize) -> (r: InterfaceState)
        requires
            self.page_start_index + self.page_size < self.repos_count,
            *cursor + self.page_size <= usize::MAX,
        ensures
            r == (InterfaceState::ResultListing {
                cursor: min_int(*cursor + self.page_size, self.repos_count - 1) as usize,
                page: PagingResults {
                    repos_count: self.repos_count,
                    page_start_index: (self.page_start_index + self.page_size) as usize,
                    page_size: self.page_size,
                },
            }),
    {
        let moved = *cursor + self.page_size;
        let last = self.repos_count - 1;
        InterfaceState::ResultListing {
            cursor: if moved < last {
                moved
            } else {
                last
            },
            page: PagingResults {
                repos_count: self.repos_count,
                page_start_index: self.page_start_index + self.page_size,
                page_size: self.page_size,
            },
        }
    }

    /// Moves to the previous page, the cursor back by one page size.
    pub fn prev_page(&self, cursor: &usize) -> (r: InterfaceState)
        requires
            self.page_start_index >= self.page_size,
            *cursor >= self.page_size,
        ensures
            r == (InterfaceState::ResultListing {
                cursor: (*cursor - self.page_size) as usize,
                page: PagingResults {
                    repos_count: self.repos_count,
                    page_start_index: (self.page_start_index - self.page_size) as usize,
                    page_size: self.page_size,
                },
            }),
    {
        InterfaceState::ResultListing {
            cursor: *cursor - self.page_size,
            page: PagingResults {
                repos_count: self.repos_count,
                page_start_index: self.page_start_index - self.page_size,
                page_size: self.page_size,
            },
        }
    }

    /// Moves the cursor down by one on the same page.
    pub fn next_repo(&self, cursor: &usize) -> (r: InterfaceState)
        requires
            *cursor < usize::MAX,
        ensures
            r == (InterfaceState::ResultListing { cursor: (*cursor + 1) as usize, page: *self }),
    {
        InterfaceState::ResultListing { cursor: *cursor + 1, page: *self }
    }

    /// Moves the cursor up by one on the same page.
    pub fn prev_repo(&self, cursor: &usize) -> (r: InterfaceState)
        requires
            *cursor > 0,
        ensures
            r == (InterfaceState::ResultListing { cursor: (*cursor - 1) as usize, page: *self }),
    {
        InterfaceState::ResultListing { cursor: *cursor - 1, page: *self }
    }
}

/// The page of `cursor` starts at the largest multiple of the page size that
/// does not exceed it.
pub proof fn lemma_page_start(cursor: int, size: int)
    requires
        cursor >= 0,
        size > 0,
    ensures
        (cursor / size) * size <= cursor < (cursor / size) * size + size,
        ((cursor / size) * size) % size == 0,
        (cursor / size) * size >= 0,
{
    vstd::arithmetic::div_mod::lemma_fundamental_div_mod(cursor, size);
    vstd::arithmetic::div_mod::lemma_mod_multiples_basic(cursor / size, size);
    vstd::arithmetic::div_mod::lemma_div_pos_is_pos(cursor, size);
    vstd::arithmetic::mul::lemma_mul_nonnegative(cursor / size, size);
    vstd::arithmetic::mul::lemma_mul_is_commutative(cursor / size, size);
}

/// Sum of the page lengths of the first `k` pages of `count` results,
/// `size` per page.
pub open spec fn pages_total(count: usize, size: usize, k: nat) -> int
    decreases k,
{
    if k == 0 {
        0
    } else {
        pages_total(count, size, (k - 1) as nat) + (PagingResults {
            repos_count: count,
            page_size: size,
            page_start_index: ((k - 1) * size) as usize,
        }).page_len()
    }
}

proof fn lemma_pages_total_prefix(count: usize, size: usize, k: nat)
    requires
        size > 0,
        k == 0 || (k - 1) * size < count,
    ensures
        pages_total(count, size, k) == min_int(count as int, k * size),
    decreases k,
{
    if k > 0 {
        let j = (k - 1) as nat;
        assert(k * size == j * size + size) by (nonlinear_arith)
            requires
                j == k - 1,
        ;
        if j > 0 {
            assert((j - 1) * size == j * size - size) by (nonlinear_arith);
        }
        lemma_pages_total_prefix(count, size, j);
    }
}

/// Stepping through all `page_count` pages shows every result exactly once:
/// their page lengths add up to the repository count, for every count and
/// page size.
pub proof fn lemma_pages_cover_all(count: usize, size: usize)
    requires
        size > 0,
    ensures
        pages_total(count, size, ceil_div(count as int, size as int) as nat) == count,
{
    let k = ceil_div(count as int, size as int);
    vstd::arithmetic::div_mod::lemma_fundamental_div_mod(count as int, size as int);
    vstd::arithmetic::div_mod::lemma_div_pos_is_pos(count as int, size as int);
    let q = count as int / size as int;
    let r = count as int % size as int;
    assert(q * size == size * q) by (nonlinear_arith);
    if r == 0 {
        if q > 0 {
            assert((q - 1) * size == q * size - size) by (nonlinear_arith);
        }
    } else {
        assert((q + 1) * size == q * size + size) by (nonlinear_arith);
    }
    lemma_pages_total_prefix(count, size, k as nat);
}

/// Pagination depends on the cursor's page only: recomputing it, with the
/// same repository count, layout and terminal height, for any cursor on the
/// page it produced (its page start included) gives the same pagination
/// back, so recomputing it is idempotent.
pub proof fn lemma_paging_idempotent(
    cursor: usize,
    other: usize,
    count: usize,
    layout: LayoutMode,
    h: u16,
)
    requires
        layout_fits(layout, h as int),
        paging_of(cursor, count, layout, h as int).page_start_index <= other,
        other < paging_of(cursor, count, layout, h as int).page_start_index + paging_of(
            cursor,
            count,
            layout,
            h as int,
        ).page_size,
    ensures
        paging_of(other, count, layout, h as int) == paging_of(cursor, count, layout, h as int),
{
    let size = page_size_for(layout, h as int);
    let p = paging_of(cursor, count, layout, h as int);
    lemma_page_start(cursor as int, size);
    let q = cursor as int / size;
    vstd::arithmetic::div_mod::lemma_fundamental_div_mod_converse(
        other as int,
        size,
        q,
        other - q * size,
    );
}

} // verus!
