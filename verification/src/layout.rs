//! How the terminal is divided: the width and height left to the table.

use vstd::prelude::*;

verus! {

/// Rows taken by the header line and the status line.
pub const RESERVED_ROWS: usize = 2;

/// Columns taken by the scrollbar.
pub const SCROLLBAR_WIDTH: usize = 1;

/// Columns taken by the border between the index column and the data.
pub const INDEX_BORDER: usize = 1;

/// Width and height left to each region of the screen.
#[derive(Debug, Clone, Copy, PartialEq, Eq, Structural)]
pub struct Layout {
    pub table_width: usize,
    pub table_height: usize,
    pub index_width: usize,
    pub index_height: usize,
}

/// `a - b`, or `0` where `b` is the larger.
pub open spec fn minus(a: int, b: int) -> int {
    if a >= b {
        a - b
    } else {
        0
    }
}

/// The columns that the index column and its border take.
pub open spec fn index_cost(show_index: bool, index_width: int) -> int {
    if show_index {
        index_width + INDEX_BORDER
    } else {
        0
    }
}

/// The layout of a terminal of the given size.
pub open spec fn layout_of(width: int, height: int, show_index: bool, index_width: int) -> Layout {
    Layout {
        table_width: minus(minus(width, SCROLLBAR_WIDTH as int), index_cost(show_index, index_width)) as usize,
        table_height: minus(height, RESERVED_ROWS as int) as usize,
        index_width: if show_index { index_width as usize } else { 0 },
        index_height: if show_index { minus(height, RESERVED_ROWS as int) as usize } else { 0 },
    }
}

impl Layout {
    /// The layout of a terminal of the given size.
    pub open spec fn layout_for(width: usize, height: usize, show_index: bool, index_width: usize) -> Layout {
        layout_of(width as int, height as int, show_index, index_width as int)
    }

    /// Computes the layout of a terminal `width` columns wide and `height` rows
    /// high. The table loses the header row, the status row and the scrollbar
    /// column, and, where the index column is shown, its width and its border.
    /// A terminal too small for them leaves a table of size zero.
    pub fn compute(width: usize, height: usize, show_index: bool, index_width: usize) -> (layout: Layout)
        ensures
            layout == layout_of(width as int, height as int, show_index, index_width as int),
    {
        let table_height: usize = height.saturating_sub(RESERVED_ROWS);
        let rest: usize = width.saturating_sub(SCROLLBAR_WIDTH);
        if show_index {
            let table_width: usize = rest.saturating_sub(index_width).saturating_sub(INDEX_BORDER);
            Layout { table_width, table_height, index_width, index_height: table_height }
        } else {
            Layout { table_width: rest, table_height, index_width: 0, index_height: 0 }
        }
    }
}

} // verus!
