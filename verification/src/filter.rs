//! Filtering: which rows of a view a predicate keeps, and the view derived
//! from them.

use crate::column::{dataset_shape, row_count, Column};
use crate::domain::TVError;
use crate::histogram::Histogram;
use crate::layout::Layout;
use crate::table_view::TableView;
use crate::search::{cell_has, scan_column};
use vstd::prelude::*;
use vstd::string::*;

verus! {

/// The numbers below `n` that `keep` holds of, in ascending order.
pub open spec fn picked(n: int, keep: spec_fn(int) -> bool) -> Seq<usize>
    decreases n,
{
    if n <= 0 {
        Seq::empty()
    } else if keep(n - 1) {
        picked(n - 1, keep).push((n - 1) as usize)
    } else {
        picked(n - 1, keep)
    }
}

/// The dataset rows that the view rows `matches` stand for.
pub open spec fn resolved(rows: Seq<usize>, matches: Seq<usize>) -> Seq<usize> {
    Seq::new(matches.len(), |k: int| rows[matches[k] as int])
}

/// The name of a view filtered from the view named `parent`.
pub open spec fn filtered_name(parent: Seq<char>) -> Seq<char> {
    "F["@ + parent + "]"@
}

/// Where the cell of view row `r` in column `column` contains `pattern`.
pub open spec fn cell_contains(
    columns: Seq<Column>,
    column: int,
    rows: Seq<usize>,
    pattern: Seq<char>,
) -> spec_fn(int) -> bool {
    cell_has(columns[column].data@, rows, pattern)
}

/// Where the cell of view row `r` in column `column` is `value`.
pub open spec fn cell_is(
    columns: Seq<Column>,
    column: int,
    rows: Seq<usize>,
    value: Seq<char>,
) -> spec_fn(int) -> bool {
    |r: int| columns[column].data[rows[r] as int]@ == value
}

/// The view rows whose cell in column `column` contains `pattern`, in
/// ascending order; none where there is no such column.
pub fn matching_rows(rows: &Vec<usize>, columns: &Vec<Column>, column: usize, pattern: &str) -> (out: Vec<usize>)
    requires
        dataset_shape(columns@),
        forall|i: int| 0 <= i < rows.len() ==> #[trigger] rows[i] < row_count(columns@),
    ensures
        column < columns.len() ==> out@ == picked(
            rows.len() as int,
            cell_contains(columns@, column as int, rows@, pattern@),
        ),
        column >= columns.len() ==> out@ == Seq::<usize>::empty(),
{
    if column >= columns.len() {
        return Vec::new();
    }
    let cells: &Column = &columns[column];
    scan_column(rows, cells, pattern)
}

/// The view rows whose cell in column `column` is `value`, in ascending
/// order; none where there is no such column.
pub fn rows_with_value(rows: &Vec<usize>, columns: &Vec<Column>, column: usize, value: &String) -> (out: Vec<usize>)
    requires
        dataset_shape(columns@),
        forall|i: int| 0 <= i < rows.len() ==> #[trigger] rows[i] < row_count(columns@),
    ensures
        column < columns.len() ==> out@ == picked(
            rows.len() as int,
            cell_is(columns@, column as int, rows@, value@),
        ),
        column >= columns.len() ==> out@ == Seq::<usize>::empty(),
{
    let mut out: Vec<usize> = Vec::new();
    if column >= columns.len() {
        return out;
    }
    let cells: &Column = &columns[column];
    let ghost keep = cell_is(columns@, column as int, rows@, value@);
    let mut r: usize = 0;
    while r < rows.len()
        invariant
            r <= rows.len(),
            cells == columns[column as int],
            cells.data.len() == row_count(columns@),
            forall|i: int| 0 <= i < rows.len() ==> #[trigger] rows[i] < row_count(columns@),
            keep == cell_is(columns@, column as int, rows@, value@),
            out@ == picked(r as int, keep),
        decreases rows.len() - r,
    {
        if cells.data[rows[r]] == *value {
            out.push(r);
        }
        r = r + 1;
    }
    out
}

impl TableView {
    /// Derives the view that holds the view rows `matches` of this one, in
    /// the order given: its row mapping is the dataset row of each of them,
    /// its name is `F[..]` around this view's name, its first cell is
    /// selected, and it holds no match and no histogram yet. A match that is no row of this view is an indexing error.
    pub fn filtered(&self, matches: &Vec<usize>, columns: &Vec<Column>, layout: &Layout) -> (child: Result<TableView, TVError>)
        requires
            dataset_shape(columns@),
            self.wf(columns@),
        ensures
            child is Ok <==> forall|k: int| 0 <= k < matches.len() ==> #[trigger] matches[k] < self.rows.len(),
            child is Err ==> child->Err_0 is DataIndexingError,
            child matches Ok(view) ==> {
                &&& view.wf(columns@)
                &&& view.rows@ == resolved(self.rows@, matches@)
                &&& view.name@ == filtered_name(self.name@)
                &&& view.show_index == self.show_index
                &&& view.height == layout.table_height
                &&& view.width == layout.table_width
                &&& view.offset_row == 0
                &&& view.offset_column == 0
                &&& view.curser_row == 0
                &&& view.curser_column == 0
                &&& view.search_results@ == Seq::<(usize, usize)>::empty()
                &&& view.search_idx == 0
                &&& view.column_histograms@ == Map::<usize, Histogram>::empty()
            },
    {
        let mut rows: Vec<usize> = Vec::new();
        let mut k: usize = 0;
        while k < matches.len()
            invariant
                k <= matches.len(),
                rows.len() == k,
                forall|i: int| 0 <= i < self.rows.len() ==> #[trigger] self.rows[i] < row_count(columns@),
                forall|i: int| 0 <= i < k ==> #[trigger] matches[i] < self.rows.len(),
                forall|i: int| 0 <= i < k ==> #[trigger] rows[i] == self.rows[matches[i] as int],
            decreases matches.len() - k,
        {
            let at: usize = matches[k];
            if at >= self.rows.len() {
                return Err(TVError::DataIndexingError(String::from_str("Row index out of bounds")));
            }
            rows.push(self.rows[at]);
            k = k + 1;
        }
        let mut name: String = String::from_str("F[");
        name.append(self.name.as_str());
        name.append("]");
        Ok(TableView::new(name, rows, self.show_index, columns, layout))
    }
}

/// Filtering by a predicate keeps, in their order, the dataset rows of the
/// view rows that the predicate holds of: the row mapping of the child has one
/// entry for each of them, and leaves out the others.
pub proof fn lemma_filter_composition(rows: Seq<usize>, keep: spec_fn(int) -> bool)
    requires
        rows.len() <= usize::MAX,
    ensures
        forall|k: int|
            0 <= k < picked(rows.len() as int, keep).len() ==> {
                let i = #[trigger] picked(rows.len() as int, keep)[k];
                &&& 0 <= i < rows.len()
                &&& keep(i as int)
                &&& resolved(rows, picked(rows.len() as int, keep))[k] == rows[i as int]
            },
        forall|i: int|
            0 <= i < rows.len() && #[trigger] keep(i) ==> picked(rows.len() as int, keep).contains(
                i as usize,
            ),
        forall|j: int, k: int|
            0 <= j < k < picked(rows.len() as int, keep).len() ==> picked(rows.len() as int, keep)[j]
                < picked(rows.len() as int, keep)[k],
{
    lemma_picked_exact(rows.len() as int, keep);
}

/// `picked` gives exactly the numbers below `n` that `keep` holds of, each
/// once, in ascending order.
pub proof fn lemma_picked_exact(n: int, keep: spec_fn(int) -> bool)
    requires
        n <= usize::MAX,
    ensures
        forall|k: int|
            0 <= k < picked(n, keep).len() ==> 0 <= #[trigger] picked(n, keep)[k] < n && keep(
                picked(n, keep)[k] as int,
            ),
        forall|i: int| 0 <= i < n && #[trigger] keep(i) ==> picked(n, keep).contains(i as usize),
        forall|j: int, k: int|
            0 <= j < k < picked(n, keep).len() ==> picked(n, keep)[j] < picked(n, keep)[k],
    decreases n,
{
    if n > 0 {
        lemma_picked_exact(n - 1, keep);
        let before = picked(n - 1, keep);
        let now = picked(n, keep);
        assert forall|i: int| 0 <= i < n && #[trigger] keep(i) implies now.contains(i as usize) by {
            if i < n - 1 {
                let k = choose|k: int| 0 <= k < before.len() && before[k] == i as usize;
                assert(now[k] == i as usize);
            } else {
                assert(now[now.len() - 1] == i as usize);
            }
        }
    }
}

} // verus!
