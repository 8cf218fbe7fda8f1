//! The table view: a window over a row mapping of the dataset, what it
//! draws, and how the selection moves in it.

use crate::column::{dataset_shape, row_count, Column, ColumnStatus};
use crate::histogram::Histogram;
use crate::layout::Layout;
use crate::text::{decimal, decimal_len, digits, lemma_decimal_len, usize_to_string};
use std::collections::HashMap;
use std::sync::Arc;
use vstd::prelude::*;
use vstd::string::*;

verus! {

/// Narrowest width of the index column.
pub const MIN_INDEX_WIDTH: usize = 3;

/// What a cell of a collapsed column shows.
pub open spec fn collapsed_glyph() -> Seq<char> {
    "\u{22ef}"@
}

/// One visible column as it is to be drawn.
pub struct ColumnView {
    pub name: String,
    pub width: usize,
    pub data: Vec<String>,
}

/// A window over a row mapping of the dataset.
pub struct TableView {
    pub name: String,
    /// The dataset row of each row of the view. The mapping is never changed
    /// in place: sorting and filtering make a new one.
    pub rows: Arc<Vec<usize>>,
    /// The dataset columns that are drawn, left to right.
    pub visible_columns: Vec<usize>,
    /// The full width of the visible columns, the last one unclipped.
    pub visible_width: usize,
    pub curser_row: usize,
    pub curser_column: usize,
    pub offset_row: usize,
    pub offset_column: usize,
    /// The visible columns as they are to be drawn.
    pub data: Vec<ColumnView>,
    /// The matches of the last search, as (view row, column) pairs.
    pub search_results: Vec<(usize, usize)>,
    pub search_idx: usize,
    pub show_index: bool,
    /// The column of row numbers, counted from one.
    pub index: ColumnView,
    /// The histograms that were computed for columns of this view.
    pub column_histograms: HashMap<usize, Histogram>,
    pub height: usize,
    pub width: usize,
}

/// The number of columns from `from` on that fit whole into `budget`, each
/// with one cell of space behind it.
pub open spec fn fitting(columns: Seq<Column>, from: int, budget: int) -> int
    decreases columns.len() - from,
{
    if 0 <= from < columns.len() && columns[from].width + 1 <= budget {
        1 + fitting(columns, from + 1, budget - columns[from].width - 1)
    } else {
        0
    }
}

/// The width of `count` columns from `from` on, each with its space.
pub open spec fn span(columns: Seq<Column>, from: int, count: int) -> int
    decreases count,
{
    if count <= 0 {
        0
    } else {
        span(columns, from, count - 1) + columns[from + count - 1].width + 1
    }
}

/// The number of columns drawn from `from` on: those that fit, and the next
/// one, clipped, where there is one.
pub open spec fn shown(columns: Seq<Column>, from: int, budget: int) -> int {
    let full = fitting(columns, from, budget);
    if from + full < columns.len() {
        full + 1
    } else {
        full
    }
}

/// The width at which the `k`-th drawn column appears.
pub open spec fn shown_width(columns: Seq<Column>, from: int, budget: int, k: int) -> int {
    let full = fitting(columns, from, budget);
    if k < full {
        columns[from + k].width as int
    } else {
        budget - span(columns, from, full)
    }
}

/// `x`, held at the largest `usize`.
pub open spec fn capped(x: int) -> usize {
    if x > usize::MAX {
        usize::MAX
    } else {
        x as usize
    }
}

/// The text that a cell of `column` shows for dataset row `row`.
pub open spec fn shown_cell(column: Column, row: int) -> Seq<char> {
    if column.status == ColumnStatus::Collapsed {
        collapsed_glyph()
    } else {
        column.data[row]@
    }
}

/// The width of the index column for the view rows `from..to`: that of the
/// longest row number, and at least `MIN_INDEX_WIDTH`.
pub open spec fn index_width(rows: Seq<usize>, from: int, to: int) -> nat
    decreases to - from,
{
    if to <= from {
        MIN_INDEX_WIDTH as nat
    } else {
        let before = index_width(rows, from, to - 1);
        let here = decimal_len((rows[to - 1] + 1) as nat);
        if here > before {
            here
        } else {
            before
        }
    }
}

/// The index column is as wide as the longest of its row numbers, and
/// `MIN_INDEX_WIDTH` wide where all of them are shorter.
pub proof fn lemma_index_width(rows: Seq<usize>, from: int, to: int)
    requires
        0 <= from <= to <= rows.len(),
    ensures
        index_width(rows, from, to) >= MIN_INDEX_WIDTH,
        forall|r: int|
            from <= r < to ==> (#[trigger] decimal((rows[r] + 1) as nat)).len() <= index_width(
                rows,
                from,
                to,
            ),
        index_width(rows, from, to) == MIN_INDEX_WIDTH || exists|r: int|
            from <= r < to && (#[trigger] decimal((rows[r] + 1) as nat)).len() == index_width(
                rows,
                from,
                to,
            ),
    decreases to - from,
{
    if from < to {
        lemma_index_width(rows, from, to - 1);
        lemma_decimal_len((rows[to - 1] + 1) as nat);
        if index_width(rows, from, to) != MIN_INDEX_WIDTH {
            if index_width(rows, from, to) == index_width(rows, from, to - 1) {
                let r = choose|r: int|
                    from <= r < to - 1 && (#[trigger] decimal((rows[r] + 1) as nat)).len()
                        == index_width(rows, from, to - 1);
                assert(decimal((rows[r] + 1) as nat).len() == index_width(rows, from, to));
            } else {
                assert(decimal((rows[to - 1] + 1) as nat).len() == index_width(rows, from, to));
            }
        }
    }
}

/// `a - b`, or `0` where `b` is the larger.
pub open spec fn minus_size(a: usize, b: usize) -> usize {
    if a >= b {
        (a - b) as usize
    } else {
        0
    }
}

/// The fitting columns are never wider than the budget, the next one would be.
pub proof fn lemma_fitting(columns: Seq<Column>, from: int, budget: int)
    requires
        0 <= from <= columns.len(),
        0 <= budget,
    ensures
        0 <= fitting(columns, from, budget) <= columns.len() - from,
        span(columns, from, fitting(columns, from, budget)) <= budget,
        from + fitting(columns, from, budget) < columns.len() ==> span(
            columns,
            from,
            fitting(columns, from, budget) + 1,
        ) > budget,
    decreases columns.len() - from,
{
    if from < columns.len() && columns[from].width + 1 <= budget {
        let w = columns[from].width + 1;
        lemma_fitting(columns, from + 1, budget - w);
        let k = fitting(columns, from + 1, budget - w);
        lemma_span_front(columns, from, k + 1);
    }
}

/// The span of `count` columns is the first one's width and the span of the rest.
pub proof fn lemma_span_front(columns: Seq<Column>, from: int, count: int)
    requires
        count >= 1,
    ensures
        span(columns, from, count) == columns[from].width + 1 + span(columns, from + 1, count - 1),
    decreases count,
{
    if count > 1 {
        lemma_span_front(columns, from, count - 1);
    } else {
        assert(span(columns, from, 0) == 0);
    }
}

/// The display strings of `column` for the view rows `from..to`.
fn window(column: &Column, rows: &Vec<usize>, from: usize, to: usize) -> (out: Vec<String>)
    requires
        from <= to <= rows.len(),
        forall|i: int| 0 <= i < rows.len() ==> #[trigger] rows[i] < column.data.len(),
    ensures
        out.len() == to - from,
        forall|r: int|
            0 <= r < out.len() ==> (#[trigger] out[r])@ == shown_cell(*column, rows[from + r] as int),
{
    let mut out: Vec<String> = Vec::new();
    let mut i: usize = from;
    let collapsed: bool = match column.status {
        ColumnStatus::Collapsed => true,
        _ => false,
    };
    while i < to
        invariant
            from <= i <= to <= rows.len(),
            out.len() == i - from,
            collapsed == (column.status == ColumnStatus::Collapsed),
            forall|k: int| 0 <= k < rows.len() ==> #[trigger] rows[k] < column.data.len(),
            forall|r: int|
                0 <= r < out.len() ==> (#[trigger] out[r])@ == shown_cell(
                    *column,
                    rows[from + r] as int,
                ),
        decreases to - i,
    {
        let text: String = if collapsed {
            String::from_str("\u{22ef}")
        } else {
            column.data[rows[i]].clone()
        };
        out.push(text);
        i = i + 1;
    }
    out
}

/// The index column for the view rows `from..to`.
fn index_column(rows: &Vec<usize>, from: usize, to: usize) -> (out: ColumnView)
    requires
        from <= to <= rows.len(),
        forall|i: int| 0 <= i < rows.len() ==> #[trigger] rows[i] < usize::MAX,
    ensures
        out.name@ == Seq::<char>::empty(),
        out.width == index_width(rows@, from as int, to as int),
        out.data.len() == to - from,
        forall|r: int|
            0 <= r < out.data.len() ==> (#[trigger] out.data[r])@ == decimal(
                (rows[from + r] + 1) as nat,
            ),
{
    let mut data: Vec<String> = Vec::new();
    let mut width: usize = MIN_INDEX_WIDTH;
    let mut i: usize = from;
    while i < to
        invariant
            from <= i <= to <= rows.len(),
            data.len() == i - from,
            width == index_width(rows@, from as int, i as int),
            forall|k: int| 0 <= k < rows.len() ==> #[trigger] rows[k] < usize::MAX,
            forall|r: int|
                0 <= r < data.len() ==> (#[trigger] data[r])@ == decimal(
                    (rows[from + r] + 1) as nat,
                ),
        decreases to - i,
    {
        let number: usize = rows[i] + 1;
        let here: usize = digits(number);
        if here > width {
            width = here;
        }
        data.push(usize_to_string(number));
        i = i + 1;
    }
    ColumnView { name: String::new(), width, data }
}

impl TableView {
    /// The number of rows in the window.
    pub open spec fn window_len(&self) -> int {
        if self.rows.len() - self.offset_row < self.height {
            self.rows.len() - self.offset_row
        } else {
            self.height as int
        }
    }

    /// The number of columns in the window.
    pub open spec fn shown_count(&self, columns: Seq<Column>) -> int {
        shown(columns, self.offset_column as int, self.width as int)
    }

    /// The rows are rows of the dataset, the offsets lie inside the view, and
    /// the search results lie inside the view.
    pub open spec fn anchored(&self, columns: Seq<Column>) -> bool {
        &&& forall|i: int| 0 <= i < self.rows.len() ==> #[trigger] self.rows[i] < row_count(columns)
        &&& (self.offset_row < self.rows.len() || self.offset_row == 0)
        &&& (self.offset_column < columns.len() || self.offset_column == 0)
        &&& forall|i: int|
            0 <= i < self.search_results.len() ==> {
                &&& (#[trigger] self.search_results[i]).0 < self.rows.len()
                &&& self.search_results[i].1 < columns.len()
            }
        &&& (self.search_idx < self.search_results.len() || self.search_idx == 0)
        &&& forall|c: usize| #[trigger]
            self.column_histograms@.contains_key(c) ==> c < columns.len()
                && self.column_histograms@[c].describes(columns[c as int].data@, self.rows@)
    }

    /// The `k`-th drawn column shows its part of the window.
    pub open spec fn draws(&self, columns: Seq<Column>, k: int) -> bool {
        let c = self.offset_column + k;
        let v = self.data[k];
        &&& v.name@ == columns[c].name@
        &&& v.width == shown_width(columns, self.offset_column as int, self.width as int, k)
        &&& v.data.len() == self.window_len()
        &&& forall|r: int|
            0 <= r < v.data.len() ==> (#[trigger] v.data[r])@ == shown_cell(
                columns[c],
                self.rows[self.offset_row + r] as int,
            )
    }

    /// The drawn columns and the index column show the window.
    pub open spec fn rendered(&self, columns: Seq<Column>) -> bool {
        &&& self.data.len() == self.visible_columns.len()
        &&& forall|k: int| 0 <= k < self.data.len() ==> #[trigger] self.draws(columns, k)
        &&& self.index.name@ == Seq::<char>::empty()
        &&& self.index.width == index_width(
            self.rows@,
            self.offset_row as int,
            self.offset_row + self.window_len(),
        )
        &&& self.index.data.len() == self.window_len()
        &&& forall|r: int|
            0 <= r < self.index.data.len() ==> (#[trigger] self.index.data[r])@ == decimal(
                (self.rows[self.offset_row + r] + 1) as nat,
            )
    }

    /// The view is consistent with the dataset: cursor and offsets lie in the
    /// window, the visible columns are those that the width admits, and what
    /// is drawn is what the window shows.
    pub open spec fn wf(&self, columns: Seq<Column>) -> bool {
        &&& self.anchored(columns)
        &&& (self.curser_row < self.window_len() || self.curser_row == 0)
        &&& self.visible_columns@ =~= Seq::new(
            self.shown_count(columns) as nat,
            |i: int| (self.offset_column + i) as usize,
        )
        &&& (self.curser_column < self.visible_columns.len() || self.curser_column == 0)
        &&& self.visible_width == capped(
            span(columns, self.offset_column as int, self.shown_count(columns)),
        )
        &&& self.rendered(columns)
    }

    /// The row cursor after it is held inside a window of `window` rows.
    pub open spec fn held(cursor: usize, window: int) -> usize {
        if cursor < window {
            cursor
        } else if window > 0 {
            (window - 1) as usize
        } else {
            0
        }
    }

    /// The view after a refresh under `layout`: size taken from the layout,
    /// cursors held inside the window, everything else as before.
    pub open spec fn refreshed_from(&self, before: &TableView, columns: Seq<Column>, layout: Layout) -> bool {
        &&& self.wf(columns)
        &&& self.height == layout.table_height
        &&& self.width == layout.table_width
        &&& self.name == before.name
        &&& self.rows == before.rows
        &&& self.offset_row == before.offset_row
        &&& self.offset_column == before.offset_column
        &&& self.search_results == before.search_results
        &&& self.search_idx == before.search_idx
        &&& self.show_index == before.show_index
        &&& self.column_histograms == before.column_histograms
        &&& self.curser_row == Self::held(before.curser_row, self.window_len())
        &&& self.curser_column == Self::held(before.curser_column, self.shown_count(columns))
    }

    /// The view has the size that `layout` gives the table.
    pub open spec fn sized_for(&self, layout: Layout) -> bool {
        self.height == layout.table_height && self.width == layout.table_width
    }

    /// The view with the selection moved `size` rows down, before the window
    /// is drawn again: inside the window the cursor moves, held at its last
    /// row; from the last row on the window moves, held at the last row of the
    /// view.
    pub open spec fn moved_down(&self, size: usize) -> TableView {
        let window = self.window_len();
        if self.curser_row + 1 < window {
            let target = if self.curser_row + size < window {
                self.curser_row + size
            } else {
                window - 1
            };
            TableView { curser_row: target as usize, ..*self }
        } else if self.rows.len() > 0 {
            let target = if self.offset_row + size < self.rows.len() {
                self.offset_row + size
            } else {
                self.rows.len() - 1
            };
            TableView { offset_row: target as usize, ..*self }
        } else {
            *self
        }
    }

    /// The view with the selection moved `size` rows up, before the window is
    /// drawn again: the cursor moves up to the first row of the window; from
    /// there on the window moves, up to the first row of the view.
    pub open spec fn moved_up(&self, size: usize) -> TableView {
        if self.curser_row > 0 {
            TableView { curser_row: minus_size(self.curser_row, size), ..*self }
        } else {
            TableView { offset_row: minus_size(self.offset_row, size), ..*self }
        }
    }

    /// The view with the selection moved `size` columns to the right, before
    /// the window is drawn again: inside the window the cursor moves, held at
    /// the last visible column; from there on the window moves, as long as the
    /// visible columns are wider than the table.
    pub open spec fn moved_right(&self, size: usize, columns: Seq<Column>) -> TableView {
        let count = self.visible_columns.len();
        if self.curser_column + 1 < count {
            let target = if self.curser_column + size < count {
                self.curser_column + size
            } else {
                count - 1
            };
            TableView { curser_column: target as usize, ..*self }
        } else if self.visible_width > self.width && columns.len() > 0 {
            let target = if self.offset_column + size < columns.len() {
                self.offset_column + size
            } else {
                columns.len() - 1
            };
            TableView { offset_column: target as usize, ..*self }
        } else {
            *self
        }
    }

    /// The view with the selection moved `size` columns to the left, before
    /// the window is drawn again.
    pub open spec fn moved_left(&self, size: usize) -> TableView {
        if self.curser_column > 0 {
            TableView { curser_column: minus_size(self.curser_column, size), ..*self }
        } else {
            TableView { offset_column: minus_size(self.offset_column, size), ..*self }
        }
    }

    /// The view with the first row selected.
    pub open spec fn at_beginning(&self) -> TableView {
        TableView { offset_row: 0, curser_row: 0, ..*self }
    }

    /// The view with the last row selected, at the end of a full window.
    pub open spec fn at_end(&self) -> TableView {
        let page = if self.height > 0 {
            self.height
        } else {
            1
        };
        if self.rows.len() == 0 {
            *self
        } else if self.rows.len() < page {
            TableView { offset_row: 0, curser_row: (self.rows.len() - 1) as usize, ..*self }
        } else {
            TableView {
                offset_row: (self.rows.len() - page) as usize,
                curser_row: (page - 1) as usize,
                ..*self
            }
        }
    }

    /// The view with the first column selected.
    pub open spec fn at_first_column(&self) -> TableView {
        TableView { offset_column: 0, curser_column: 0, ..*self }
    }

    /// The view with the last column selected, as the first visible one.
    pub open spec fn at_last_column(&self, columns: Seq<Column>) -> TableView {
        if columns.len() == 0 {
            *self
        } else {
            TableView { offset_column: (columns.len() - 1) as usize, curser_column: 0, ..*self }
        }
    }

    /// The view with view row `row` and column `column` selected, before the
    /// window is drawn again. A visible column only takes the cursor, another
    /// one becomes the first visible column; a row of the window only takes
    /// the cursor, another one becomes the first row of the window.
    pub open spec fn selecting(&self, row: usize, column: usize) -> TableView {
        let in_columns = self.offset_column <= column < self.offset_column
            + self.visible_columns.len();
        let in_rows = self.offset_row <= row < self.offset_row + self.window_len();
        TableView {
            offset_column: if in_columns {
                self.offset_column
            } else {
                column
            },
            curser_column: if in_columns {
                (column - self.offset_column) as usize
            } else {
                0
            },
            offset_row: if in_rows {
                self.offset_row
            } else {
                row
            },
            curser_row: if in_rows {
                (row - self.offset_row) as usize
            } else {
                0
            },
            ..*self
        }
    }

    /// Recomputes what the view shows: the columns that fit the table width
    /// from `offset_column` on (the first that does not fit is still shown,
    /// clipped to the width that is left), the cursors held inside the window,
    /// the display strings of the window, and the index column.
    pub fn refresh(&mut self, columns: &Vec<Column>, layout: &Layout)
        requires
            dataset_shape(columns@),
            old(self).anchored(columns@),
        ensures
            final(self).refreshed_from(old(self), columns@, *layout),
    {
        self.height = layout.table_height;
        self.width = layout.table_width;
        let budget: usize = self.width;
        let first: usize = self.offset_column;
        // The columns that fit whole.
        let mut visible: Vec<usize> = Vec::new();
        let mut widths: Vec<usize> = Vec::new();
        let mut running: usize = 0;
        let mut c: usize = first;
        while c < columns.len() && columns[c].width < budget - running
            invariant
                first <= c <= columns.len() || (c == first && first == 0),
                running <= budget,
                running == span(columns@, first as int, c - first),
                fitting(columns@, first as int, budget as int) == (c - first) + fitting(
                    columns@,
                    c as int,
                    budget - running,
                ),
                visible@ =~= Seq::new((c - first) as nat, |i: int| (first + i) as usize),
                widths.len() == c - first,
                forall|k: int| 0 <= k < widths.len() ==> #[trigger] widths[k] == columns[first + k].width,
            decreases columns.len() - c,
        {
            visible.push(c);
            widths.push(columns[c].width);
            running = running + columns[c].width + 1;
            c = c + 1;
        }
        let mut total: usize = running;
        if c < columns.len() {
            visible.push(c);
            widths.push(budget - running);
            total = running.saturating_add(columns[c].width).saturating_add(1);
        }
        self.visible_columns = visible;
        self.visible_width = total;
        // The cursors, held inside the window.
        let rest: usize = self.rows.len() - self.offset_row;
        let window_len: usize = if rest < self.height {
            rest
        } else {
            self.height
        };
        if self.curser_row >= window_len {
            self.curser_row = if window_len > 0 {
                window_len - 1
            } else {
                0
            };
        }
        let count: usize = self.visible_columns.len();
        if self.curser_column >= count {
            self.curser_column = if count > 0 {
                count - 1
            } else {
                0
            };
        }
        // The display strings of the window.
        let from: usize = self.offset_row;
        let to: usize = from + window_len;
        let mut data: Vec<ColumnView> = Vec::new();
        let mut k: usize = 0;
        while k < count
            invariant
                k <= count,
                count == self.visible_columns.len(),
                count == widths.len(),
                count == shown(columns@, first as int, budget as int),
                first + count <= columns.len(),
                first == self.offset_column,
                budget == self.width,
                from == self.offset_row,
                to == from + window_len,
                window_len == self.window_len(),
                to <= self.rows.len(),
                dataset_shape(columns@),
                forall|i: int| 0 <= i < self.rows.len() ==> #[trigger] self.rows[i] < row_count(columns@),
                forall|j: int|
                    0 <= j < widths.len() ==> #[trigger] widths[j] == shown_width(
                        columns@,
                        first as int,
                        budget as int,
                        j,
                    ),
                data.len() == k,
                forall|j: int| 0 <= j < k ==> {
                    let v = #[trigger] data[j];
                    &&& v.name@ == columns[first + j].name@
                    &&& v.width == shown_width(columns@, first as int, budget as int, j)
                    &&& v.data.len() == window_len
                    &&& forall|r: int|
                        0 <= r < v.data.len() ==> (#[trigger] v.data[r])@ == shown_cell(
                            columns[first + j],
                            self.rows[from + r] as int,
                        )
                },
            decreases count - k,
        {
            let column: &Column = &columns[first + k];
            let cells: Vec<String> = window(column, &self.rows, from, to);
            data.push(ColumnView { name: column.name.clone(), width: widths[k], data: cells });
            k = k + 1;
        }
        self.data = data;
        self.index = index_column(&self.rows, from, to);
    }
    /// The number of rows in the window.
    pub fn window_rows(&self) -> (n: usize)
        requires
            self.offset_row <= self.rows.len(),
        ensures
            n == self.window_len(),
    {
        let rest: usize = self.rows.len() - self.offset_row;
        if rest < self.height {
            rest
        } else {
            self.height
        }
    }

    /// A view named `name` over the row mapping `rows`, with the first cell
    /// selected.
    pub fn new(name: String, rows: Vec<usize>, show_index: bool, columns: &Vec<Column>, layout: &Layout) -> (view: TableView)
        requires
            dataset_shape(columns@),
            forall|i: int| 0 <= i < rows.len() ==> #[trigger] rows[i] < row_count(columns@),
        ensures
            view.wf(columns@),
            view.name == name,
            view.rows@ == rows@,
            view.show_index == show_index,
            view.height == layout.table_height,
            view.width == layout.table_width,
            view.offset_row == 0,
            view.offset_column == 0,
            view.curser_row == 0,
            view.curser_column == 0,
            view.search_results@ == Seq::<(usize, usize)>::empty(),
            view.search_idx == 0,
            view.column_histograms@ == Map::<usize, Histogram>::empty(),
    {
        let mut view = TableView {
            name,
            rows: Arc::new(rows),
            visible_columns: Vec::new(),
            visible_width: 0,
            curser_row: 0,
            curser_column: 0,
            offset_row: 0,
            offset_column: 0,
            data: Vec::new(),
            search_results: Vec::new(),
            search_idx: 0,
            show_index,
            index: ColumnView { name: String::new(), width: 0, data: Vec::new() },
            column_histograms: HashMap::new(),
            height: 0,
            width: 0,
        };
        view.refresh(columns, layout);
        view
    }

    /// Moves the selection `size` rows down.
    pub fn move_down(&mut self, size: usize, columns: &Vec<Column>, layout: &Layout)
        requires
            dataset_shape(columns@),
            old(self).wf(columns@),
        ensures
            final(self).refreshed_from(&old(self).moved_down(size), columns@, *layout),
    {
        let window: usize = self.window_rows();
        if self.curser_row < window && self.curser_row + 1 < window {
            self.curser_row = if size < window - self.curser_row {
                self.curser_row + size
            } else {
                window - 1
            };
        } else if self.rows.len() > 0 {
            self.offset_row = if size < self.rows.len() - self.offset_row {
                self.offset_row + size
            } else {
                self.rows.len() - 1
            };
        }
        self.refresh(columns, layout);
    }

    /// Moves the selection `size` rows up.
    pub fn move_up(&mut self, size: usize, columns: &Vec<Column>, layout: &Layout)
        requires
            dataset_shape(columns@),
            old(self).wf(columns@),
        ensures
            final(self).refreshed_from(&old(self).moved_up(size), columns@, *layout),
    {
        if self.curser_row > 0 {
            self.curser_row = self.curser_row.saturating_sub(size);
        } else {
            self.offset_row = self.offset_row.saturating_sub(size);
        }
        self.refresh(columns, layout);
    }

    /// Moves the selection `size` columns to the right.
    pub fn move_right(&mut self, size: usize, columns: &Vec<Column>, layout: &Layout)
        requires
            dataset_shape(columns@),
            old(self).wf(columns@),
        ensures
            final(self).refreshed_from(
                &old(self).moved_right(size, columns@),
                columns@,
                *layout,
            ),
    {
        let count: usize = self.visible_columns.len();
        if self.curser_column < count && self.curser_column + 1 < count {
            self.curser_column = if size < count - self.curser_column {
                self.curser_column + size
            } else {
                count - 1
            };
        } else if self.visible_width > self.width && columns.len() > 0 {
            self.offset_column = if size < columns.len() - self.offset_column {
                self.offset_column + size
            } else {
                columns.len() - 1
            };
        }
        self.refresh(columns, layout);
    }

    /// Moves the selection `size` columns to the left.
    pub fn move_left(&mut self, size: usize, columns: &Vec<Column>, layout: &Layout)
        requires
            dataset_shape(columns@),
            old(self).wf(columns@),
        ensures
            final(self).refreshed_from(&old(self).moved_left(size), columns@, *layout),
    {
        if self.curser_column > 0 {
            self.curser_column = self.curser_column.saturating_sub(size);
        } else {
            self.offset_column = self.offset_column.saturating_sub(size);
        }
        self.refresh(columns, layout);
    }

    /// Selects the first row.
    pub fn move_beginning(&mut self, columns: &Vec<Column>, layout: &Layout)
        requires
            dataset_shape(columns@),
            old(self).wf(columns@),
        ensures
            final(self).refreshed_from(&old(self).at_beginning(), columns@, *layout),
    {
        self.offset_row = 0;
        self.curser_row = 0;
        self.refresh(columns, layout);
    }

    /// Selects the last row.
    pub fn move_end(&mut self, columns: &Vec<Column>, layout: &Layout)
        requires
            dataset_shape(columns@),
            old(self).wf(columns@),
        ensures
            final(self).refreshed_from(&old(self).at_end(), columns@, *layout),
    {
        let page: usize = if self.height > 0 {
            self.height
        } else {
            1
        };
        let count: usize = self.rows.len();
        if count > 0 {
            if count < page {
                self.offset_row = 0;
                self.curser_row = count - 1;
            } else {
                self.offset_row = count - page;
                self.curser_row = page - 1;
            }
        }
        self.refresh(columns, layout);
    }

    /// Selects the first column.
    pub fn move_first_column(&mut self, columns: &Vec<Column>, layout: &Layout)
        requires
            dataset_shape(columns@),
            old(self).wf(columns@),
        ensures
            final(self).refreshed_from(&old(self).at_first_column(), columns@, *layout),
    {
        self.offset_column = 0;
        self.curser_column = 0;
        self.refresh(columns, layout);
    }

    /// Selects the last column.
    pub fn move_last_column(&mut self, columns: &Vec<Column>, layout: &Layout)
        requires
            dataset_shape(columns@),
            old(self).wf(columns@),
        ensures
            final(self).refreshed_from(
                &old(self).at_last_column(columns@),
                columns@,
                *layout,
            ),
    {
        if columns.len() > 0 {
            self.offset_column = columns.len() - 1;
            self.curser_column = 0;
        }
        self.refresh(columns, layout);
    }

    /// Selects the cell in view row `row` and column `column`. Returns
    /// whether there is such a cell; where there is none the view stays as it
    /// is.
    pub fn select_cell(
        &mut self,
        row: usize,
        column: usize,
        columns: &Vec<Column>,
        layout: &Layout,
    ) -> (selected: bool)
        requires
            dataset_shape(columns@),
            old(self).wf(columns@),
            old(self).sized_for(*layout),
        ensures
            selected == (row < old(self).rows.len() && column < columns.len()),
            selected ==> final(self).refreshed_from(
                &old(self).selecting(row, column),
                columns@,
                *layout,
            ),
            selected ==> final(self).offset_row + final(self).curser_row == row,
            selected ==> final(self).offset_column + final(self).curser_column == column,
            !selected ==> *final(self) == *old(self),
    {
        if row >= self.rows.len() || column >= columns.len() {
            return false;
        }
        let count: usize = self.visible_columns.len();
        proof {
            lemma_fitting(columns@, self.offset_column as int, self.width as int);
        }
        if self.offset_column <= column && column - self.offset_column < count {
            self.curser_column = column - self.offset_column;
        } else {
            self.offset_column = column;
            self.curser_column = 0;
        }
        let window: usize = self.window_rows();
        if self.offset_row <= row && row - self.offset_row < window {
            self.curser_row = row - self.offset_row;
        } else {
            self.offset_row = row;
            self.curser_row = 0;
        }
        self.refresh(columns, layout);
        true
    }
}

/// The selection of a consistent view lies inside the view: the selected row
/// is a row of the view where it has rows, and the selected column is a column
/// of the dataset where it has columns.
pub proof fn lemma_selection_in_range(view: TableView, columns: Seq<Column>)
    requires
        view.wf(columns),
    ensures
        view.rows.len() > 0 ==> view.offset_row + view.curser_row < view.rows.len(),
        view.rows.len() == 0 ==> view.offset_row + view.curser_row == 0,
        columns.len() > 0 ==> view.offset_column + view.curser_column < columns.len(),
        columns.len() == 0 ==> view.offset_column + view.curser_column == 0,
        view.visible_columns.len() == view.shown_count(columns),
        view.offset_column + view.visible_columns.len() <= columns.len(),
{
    if view.offset_column <= columns.len() {
        lemma_fitting(columns, view.offset_column as int, view.width as int);
    }
}

/// A view that is consistent with a dataset that has rows and columns, in a
/// window of some height, has its cursors inside the window and its selection
/// inside the view.
pub proof fn lemma_window_invariant(view: TableView, columns: Seq<Column>)
    requires
        view.wf(columns),
        view.height > 0,
        view.rows.len() > 0,
        columns.len() > 0,
    ensures
        view.curser_row < view.height,
        view.offset_row + view.curser_row < view.rows.len(),
        view.curser_column < view.visible_columns.len(),
        view.offset_column + view.curser_column < columns.len(),
{
    lemma_fitting(columns, view.offset_column as int, view.width as int);
}

} // verus!
