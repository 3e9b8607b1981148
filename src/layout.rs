use vstd::prelude::*;

verus! {

/// Rows taken by the header, vertical padding included.
pub const HEADER_HEIGHT: u16 = 3;

/// Rows taken by the footer, vertical padding included.
pub const FOOTER_HEIGHT: u16 = 5;

/// Rows of a result that does not hold the cursor (comfortable layout).
pub const RESULT_SIZE_UNFOCUSED: u16 = 3;

/// Rows of the result that holds the cursor (comfortable layout).
pub const RESULT_SIZE_FOCUSED: u16 = RESULT_SIZE_UNFOCUSED;

/// Rows of every result in the compact layout.
pub const RESULT_SIZE_COMPACT: u16 = 2;

/// How the result browser lays out its rows, chosen from the terminal height.
#[derive(Clone, Copy, Debug, PartialEq, Eq, Structural)]
pub enum LayoutMode {
    /// Too short for two compact rows: only an instruction is shown.
    Break,
    /// Three-row results with spacing between them.
    Comfortable,
    /// Two-row results without spacing.
    Compact,
}

/// Terminal frame size in cells.
#[derive(Clone, Copy, Debug, PartialEq, Eq, Structural)]
pub struct Size {
    pub w: u16,
    pub h: u16,
}

/// Rows left for results once header and footer are drawn.
pub open spec fn content_height(h: int) -> int {
    h - HEADER_HEIGHT - FOOTER_HEIGHT
}

/// The layout for a terminal `h` rows tall.
pub open spec fn layout_of_height(h: int) -> LayoutMode {
    if content_height(h) <= 2 * RESULT_SIZE_COMPACT {
        LayoutMode::Break
    } else if content_height(h) <= RESULT_SIZE_FOCUSED + 2 * RESULT_SIZE_UNFOCUSED {
        LayoutMode::Compact
    } else {
        LayoutMode::Comfortable
    }
}

/// Whether a page can be laid out in `layout` on a terminal `h` rows tall:
/// the layout paginates and at least one of its rows fits.
pub open spec fn layout_fits(layout: LayoutMode, h: int) -> bool {
    match layout {
        LayoutMode::Break => false,
        LayoutMode::Comfortable => content_height(h) >= RESULT_SIZE_FOCUSED,
        LayoutMode::Compact => content_height(h) >= RESULT_SIZE_COMPACT,
    }
}

/// Results per page for `layout` on a terminal `h` rows tall.
pub open spec fn page_size_for(layout: LayoutMode, h: int) -> int {
    match layout {
        LayoutMode::Break => 0,
        LayoutMode::Comfortable => (content_height(h) - RESULT_SIZE_FOCUSED) / (
        RESULT_SIZE_UNFOCUSED + 1) + 1,
        LayoutMode::Compact => (content_height(h) - RESULT_SIZE_COMPACT) / (RESULT_SIZE_COMPACT + 1)
            + 1,
    }
}

/// Picks the layout for a terminal `h` rows tall: `Break` when two compact
/// rows cannot fit, `Compact` when three comfortable rows cannot, else
/// `Comfortable`.
pub fn layout_for_height(h: u16) -> (r: LayoutMode)
    ensures
        r == layout_of_height(h as int),
        r != LayoutMode::Break ==> layout_fits(r, h as int),
{
    let min_height_before_break: u16 = RESULT_SIZE_COMPACT * 2 + HEADER_HEIGHT + FOOTER_HEIGHT;
    let min_height_before_compact: u16 = RESULT_SIZE_FOCUSED + RESULT_SIZE_UNFOCUSED * 2
        + HEADER_HEIGHT + FOOTER_HEIGHT;
    if h <= min_height_before_break {
        LayoutMode::Break
    } else if h <= min_height_before_compact {
        LayoutMode::Compact
    } else {
        LayoutMode::Comfortable
    }
}

} // verus!
