//! Sorting the rows of a view by the cells of one column.

use crate::column::{dataset_shape, Column};
use crate::histogram::{copy_rows, lemma_histogram_permutation};
use crate::layout::Layout;
use crate::order::{sort_indices, IndexOrder};
use crate::table_view::TableView;
use crate::text::{lemma_text_lt_total, lemma_text_lt_transitive, str_lt, text_lt};
use std::sync::Arc;
use vstd::prelude::*;

verus! {

/// Text `a` has to stand before text `b`.
pub open spec fn text_before(a: Seq<char>, b: Seq<char>, descending: bool) -> bool {
    if descending {
        text_lt(b, a)
    } else {
        text_lt(a, b)
    }
}

/// Number `x` has to stand before number `y`.
pub open spec fn number_before(x: i64, y: i64, descending: bool) -> bool {
    if descending {
        x > y
    } else {
        x < y
    }
}

/// Dataset row `a` has to stand before dataset row `b` when the view is sorted
/// by `column`. In a numeric column two numbers go by their value, a number
/// stands before a text that is no number whatever the direction, and two
/// such texts go by the order of texts; in another column all cells go by the
/// order of texts.
pub open spec fn cell_before(column: Column, a: int, b: int, descending: bool) -> bool {
    if column.numeric {
        match (column.numbers[a], column.numbers[b]) {
            (Some(x), Some(y)) => number_before(x, y, descending),
            (Some(_), None) => true,
            (None, Some(_)) => false,
            (None, None) => text_before(column.data[a]@, column.data[b]@, descending),
        }
    } else {
        text_before(column.data[a]@, column.data[b]@, descending)
    }
}

/// `after` holds the rows of `before`, each as often, and no row of it has to
/// stand before an earlier one.
pub open spec fn sorted_by(column: Column, descending: bool, before: Seq<usize>, after: Seq<usize>) -> bool {
    &&& after.to_multiset() == before.to_multiset()
    &&& after.len() == before.len()
    &&& forall|i: int, j: int|
        0 <= i < j < after.len() ==> !cell_before(
            column,
            #[trigger] after[j] as int,
            #[trigger] after[i] as int,
            descending,
        )
}

/// The order of the rows of the dataset by the cells of one column.
pub struct ByColumn<'a> {
    pub column: &'a Column,
    pub descending: bool,
}

/// Where `b` does not have to stand before `a`, nor `c` before `b`, `c` does
/// not have to stand before `a`.
pub proof fn lemma_text_before_chain(a: Seq<char>, b: Seq<char>, c: Seq<char>, descending: bool)
    requires
        !text_before(b, a, descending),
        !text_before(c, b, descending),
    ensures
        !text_before(c, a, descending),
{
    lemma_text_lt_total(a, b);
    lemma_text_lt_total(b, c);
    lemma_text_lt_total(a, c);
    if descending {
        if text_lt(a, c) {
            if a != b && b != c {
                lemma_text_lt_transitive(c, b, a);
            }
        }
    } else {
        if text_lt(c, a) {
            if a != b && b != c {
                lemma_text_lt_transitive(a, b, c);
            }
        }
    }
}

impl<'a> IndexOrder for ByColumn<'a> {
    open spec fn admits(&self, a: usize) -> bool {
        a < self.column.data.len() && self.column.wf()
    }

    open spec fn before(&self, a: usize, b: usize) -> bool {
        cell_before(*self.column, a as int, b as int, self.descending)
    }

    proof fn lemma_asymmetric(&self, a: usize, b: usize) {
        lemma_text_lt_total(self.column.data[a as int]@, self.column.data[b as int]@);
    }

    proof fn lemma_chain(&self, a: usize, b: usize, c: usize) {
        let numbers = self.column.numbers;
        if !self.column.numeric || (numbers[a as int] is None && numbers[b as int] is None
            && numbers[c as int] is None) {
            lemma_text_before_chain(
                self.column.data[a as int]@,
                self.column.data[b as int]@,
                self.column.data[c as int]@,
                self.descending,
            );
        }
    }

    fn comes_before(&self, a: usize, b: usize) -> (r: bool) {
        let column: &Column = self.column;
        if column.numeric {
            match (column.numbers[a], column.numbers[b]) {
                (Some(x), Some(y)) => if self.descending {
                    x > y
                } else {
                    x < y
                },
                (Some(_), None) => true,
                (None, Some(_)) => false,
                (None, None) => if self.descending {
                    str_lt(column.data[b].as_str(), column.data[a].as_str())
                } else {
                    str_lt(column.data[a].as_str(), column.data[b].as_str())
                },
            }
        } else {
            if self.descending {
                str_lt(column.data[b].as_str(), column.data[a].as_str())
            } else {
                str_lt(column.data[a].as_str(), column.data[b].as_str())
            }
        }
    }
}

/// Sorts the dataset rows `rows` by the cells of `column`.
pub fn sort_rows(rows: Vec<usize>, column: &Column, descending: bool) -> (out: Vec<usize>)
    requires
        column.wf(),
        forall|i: int| 0 <= i < rows.len() ==> #[trigger] rows[i] < column.data.len(),
    ensures
        sorted_by(*column, descending, rows@, out@),
        forall|i: int| 0 <= i < out.len() ==> #[trigger] out[i] < column.data.len(),
{
    let order = ByColumn { column, descending };
    sort_indices(&order, rows)
}

/// In a view sorted by a numeric column no text that is no number stands
/// before a number, whatever the direction; and two numbers, like two such
/// texts, stand in the order that the direction asks for.
pub proof fn lemma_numbers_stand_first(
    column: Column,
    descending: bool,
    before: Seq<usize>,
    after: Seq<usize>,
    i: int,
    j: int,
)
    requires
        column.numeric,
        sorted_by(column, descending, before, after),
        0 <= i < j < after.len(),
    ensures
        column.numbers[after[j] as int] is Some ==> column.numbers[after[i] as int] is Some,
        column.numbers[after[i] as int] is Some && column.numbers[after[j] as int] is Some
            ==> !number_before(
            column.numbers[after[j] as int]->0,
            column.numbers[after[i] as int]->0,
            descending,
        ),
        column.numbers[after[i] as int] is None && column.numbers[after[j] as int] is None
            ==> !text_before(
            column.data[after[j] as int]@,
            column.data[after[i] as int]@,
            descending,
        ),
{
    assert(!cell_before(column, after[j] as int, after[i] as int, descending));
}

impl TableView {
    /// The view with the row mapping `rows`.
    pub open spec fn with_rows(&self, rows: Arc<Vec<usize>>) -> TableView {
        TableView { rows, ..*self }
    }

    /// Sorts the rows of the view by the cells of column `column`, ascending
    /// or descending. The cursor and the offsets stay; the matches of the last
    /// search, which name rows by their place, are dropped. Returns whether
    /// there is such a column; where there is none the view stays as it is.
    pub fn sort(
        &mut self,
        column: usize,
        descending: bool,
        columns: &Vec<Column>,
        layout: &Layout,
    ) -> (sorted: bool)
        requires
            dataset_shape(columns@),
            old(self).wf(columns@),
        ensures
            sorted == (column < columns.len()),
            !sorted ==> *final(self) == *old(self),
            sorted ==> sorted_by(columns[column as int], descending, old(self).rows@, final(self).rows@),
            sorted ==> final(self).search_results@ == Seq::<(usize, usize)>::empty(),
            sorted ==> final(self).refreshed_from(
                &old(self).with_rows(final(self).rows).with_matches(final(self).search_results, 0),
                columns@,
                *layout,
            ),
    {
        if column >= columns.len() {
            return false;
        }
        let cells: &Column = &columns[column];
        let sorted: Vec<usize> = sort_rows(copy_rows(&self.rows), cells, descending);
        self.rows = Arc::new(sorted);
        self.search_results = Vec::new();
        self.search_idx = 0;
        proof {
            assert forall|c: usize| #[trigger]
                self.column_histograms@.contains_key(c) implies c < columns.len()
                && self.column_histograms@[c].describes(columns[c as int].data@, self.rows@) by {
                let cached = self.column_histograms@[c];
                lemma_histogram_permutation(
                    cached.counts@,
                    cached.values@,
                    columns[c as int].data@,
                    old(self).rows@,
                    self.rows@,
                );
            }
        }
        self.refresh(columns, layout);
        true
    }
}

} // verus!
