//! Searching the cells of a view, and stepping through the matches.

use crate::column::{dataset_shape, row_count, Column};
use crate::filter::{lemma_picked_exact, picked};
use crate::histogram::identity_rows;
use crate::layout::Layout;
use crate::order::{lemma_sorting_keeps_items, sort_indices, IndexOrder};
use crate::table_view::TableView;
use crate::text::{contains_text, str_contains};
use rayon::iter::{IntoParallelRefIterator, ParallelIterator};
use vstd::prelude::*;

verus! {

/// How the match cursor moves before the match is selected.
#[derive(Debug, Clone, Copy, PartialEq, Eq, Structural)]
pub enum SearchStep {
    /// Stay on the current match.
    Current,
    Next,
    Previous,
}

/// Column `c` is searched: every column, or the one that was asked for.
pub open spec fn in_scope(scope: Option<usize>, c: int) -> bool {
    match scope {
        None => true,
        Some(only) => c == only,
    }
}

/// The cell in view row `r` and column `c` contains `pattern`.
pub open spec fn is_match(
    columns: Seq<Column>,
    rows: Seq<usize>,
    pattern: Seq<char>,
    r: int,
    c: int,
) -> bool {
    contains_text(columns[c].data[rows[r] as int]@, pattern)
}

/// `a` comes before `b`: by row, then by column.
pub open spec fn pair_lt(a: (usize, usize), b: (usize, usize)) -> bool {
    a.0 < b.0 || (a.0 == b.0 && a.1 < b.1)
}

/// `results` names the cell in view row `r` and column `c`.
pub open spec fn names(results: Seq<(usize, usize)>, r: int, c: int) -> bool {
    exists|i: int| 0 <= i < results.len() && (#[trigger] results[i]).0 == r && results[i].1 == c
}

/// `results` holds each earlier pair before each later one.
pub open spec fn ascending(results: Seq<(usize, usize)>) -> bool {
    forall|i: int, j: int|
        0 <= i < j < results.len() ==> pair_lt(#[trigger] results[i], #[trigger] results[j])
}

/// `results` is what a search for `pattern` finds: the cells in scope that
/// contain it, all of them, in ascending order of row and column.
pub open spec fn is_search_result(
    results: Seq<(usize, usize)>,
    columns: Seq<Column>,
    rows: Seq<usize>,
    pattern: Seq<char>,
    scope: Option<usize>,
) -> bool {
    &&& ascending(results)
    &&& forall|i: int|
        0 <= i < results.len() ==> {
            let hit = #[trigger] results[i];
            &&& hit.0 < rows.len()
            &&& hit.1 < columns.len()
            &&& in_scope(scope, hit.1 as int)
            &&& is_match(columns, rows, pattern, hit.0 as int, hit.1 as int)
        }
    &&& forall|r: int, c: int|
        0 <= r < rows.len() && 0 <= c < columns.len() && in_scope(scope, c) && #[trigger] is_match(
            columns,
            rows,
            pattern,
            r,
            c,
        ) ==> names(results, r, c)
}

/// The position of the first match from `start` on that lies in view row
/// `row` or below it; `0` where there is none.
pub open spec fn first_from(results: Seq<(usize, usize)>, row: int, start: int) -> int
    decreases results.len() - start,
{
    if start < 0 || start >= results.len() {
        0
    } else if results[start].0 >= row {
        start
    } else {
        first_from(results, row, start + 1)
    }
}

/// The match cursor after a step over `count` matches, with wraparound.
pub open spec fn stepped(idx: int, count: int, step: SearchStep) -> int {
    match step {
        SearchStep::Current => idx,
        SearchStep::Next => if idx + 1 < count {
            idx + 1
        } else {
            0
        },
        SearchStep::Previous => if idx > 0 {
            idx - 1
        } else {
            count - 1
        },
    }
}

/// Where the cell of view row `r` among the cells `cells` of one column
/// contains `pattern`.
pub open spec fn cell_has(cells: Seq<String>, rows: Seq<usize>, pattern: Seq<char>) -> spec_fn(
    int,
) -> bool {
    |r: int| contains_text(cells[rows[r] as int]@, pattern)
}

/// The view rows whose cell in `column` contains `pattern`, in ascending
/// order.
pub fn scan_column(rows: &Vec<usize>, column: &Column, pattern: &str) -> (out: Vec<usize>)
    requires
        forall|i: int| 0 <= i < rows.len() ==> #[trigger] rows[i] < column.data.len(),
    ensures
        out@ == picked(rows.len() as int, cell_has(column.data@, rows@, pattern@)),
{
    let mut out: Vec<usize> = Vec::new();
    let ghost keep = cell_has(column.data@, rows@, pattern@);
    let mut r: usize = 0;
    while r < rows.len()
        invariant
            r <= rows.len(),
            forall|i: int| 0 <= i < rows.len() ==> #[trigger] rows[i] < column.data.len(),
            keep == cell_has(column.data@, rows@, pattern@),
            out@ == picked(r as int, keep),
        decreases rows.len() - r,
    {
        if str_contains(column.data[rows[r]].as_str(), pattern) {
            out.push(r);
        }
        r = r + 1;
    }
    out
}

/// rayon's `par_iter`, `map` and `collect` over the columns: every column is
/// scanned by `scan_column`, on the threads of the pool, and the results are
/// collected in the order of the columns.
#[verifier::external_body]
pub(crate) fn scan_columns(rows: &Vec<usize>, columns: &Vec<Column>, pattern: &str) -> (hits: Vec<
    Vec<usize>,
>)
    requires
        dataset_shape(columns@),
        forall|i: int| 0 <= i < rows.len() ==> #[trigger] rows[i] < row_count(columns@),
    ensures
        hits.len() == columns.len(),
        forall|c: int|
            0 <= c < hits.len() ==> (#[trigger] hits[c])@ == picked(
                rows.len() as int,
                cell_has(columns[c].data@, rows@, pattern@),
            ),
{
    columns.par_iter().map(|column| scan_column(rows, column, pattern)).collect()
}

/// The order of pairs by row, then by column.
pub struct ByCell<'a> {
    pub pairs: &'a Vec<(usize, usize)>,
}

impl<'a> IndexOrder for ByCell<'a> {
    open spec fn admits(&self, a: usize) -> bool {
        a < self.pairs.len()
    }

    open spec fn before(&self, a: usize, b: usize) -> bool {
        pair_lt(self.pairs[a as int], self.pairs[b as int])
    }

    proof fn lemma_asymmetric(&self, a: usize, b: usize) {
    }

    proof fn lemma_chain(&self, a: usize, b: usize, c: usize) {
    }

    fn comes_before(&self, a: usize, b: usize) -> (r: bool) {
        let left: (usize, usize) = self.pairs[a];
        let right: (usize, usize) = self.pairs[b];
        left.0 < right.0 || (left.0 == right.0 && left.1 < right.1)
    }
}

/// Puts pairs that differ from each other in ascending order.
pub fn sort_pairs(pairs: Vec<(usize, usize)>) -> (out: Vec<(usize, usize)>)
    requires
        forall|i: int, j: int| 0 <= i < j < pairs.len() ==> #[trigger] pairs[i] != #[trigger] pairs[j],
    ensures
        ascending(out@),
        out.len() == pairs.len(),
        forall|i: int| 0 <= i < out.len() ==> pairs@.contains(#[trigger] out[i]),
        forall|i: int| 0 <= i < pairs.len() ==> out@.contains(#[trigger] pairs[i]),
{
    let order = ByCell { pairs: &pairs };
    let ids: Vec<usize> = identity_rows(pairs.len());
    let places: Vec<usize> = sort_indices(&order, ids);
    proof {
        lemma_sorting_keeps_items(&order, ids@, places@);
    }
    let mut out: Vec<(usize, usize)> = Vec::new();
    let mut i: usize = 0;
    while i < places.len()
        invariant
            i <= places.len(),
            places.len() == pairs.len(),
            out.len() == i,
            forall|k: int| 0 <= k < places.len() ==> #[trigger] places[k] < pairs.len(),
            forall|k: int| 0 <= k < i ==> #[trigger] out[k] == pairs[places[k] as int],
        decreases places.len() - i,
    {
        out.push(pairs[places[i]]);
        i = i + 1;
    }
    proof {
        assert forall|k: int| 0 <= k < pairs.len() implies out@.contains(#[trigger] pairs[k]) by {
            assert(ids@[k] == k as usize);
            assert(ids@.contains(k as usize));
            let at = choose|at: int| 0 <= at < places.len() && places[at] == k as usize;
            assert(out@[at] == pairs[k]);
        }
    }
    out
}

/// The pairs of row and column of the hits `hits`, which hold for every
/// column in scope its rows: column by column, each pair once.
fn pair_up(hits: &Vec<Vec<usize>>, first: usize, nrows: usize) -> (pairs: Vec<(usize, usize)>)
    requires
        first + hits.len() <= usize::MAX,
        forall|c: int, k: int|
            0 <= c < hits.len() && 0 <= k < hits[c].len() ==> (#[trigger] hits[c][k]) < nrows,
        forall|c: int, j: int, k: int|
            0 <= c < hits.len() && 0 <= j < k < hits[c].len() ==> (#[trigger] hits[c][j])
                < (#[trigger] hits[c][k]),
    ensures
        forall|i: int, j: int| 0 <= i < j < pairs.len() ==> #[trigger] pairs[i] != #[trigger] pairs[j],
        forall|i: int|
            0 <= i < pairs.len() ==> {
                let pair = #[trigger] pairs[i];
                &&& first <= pair.1 < first + hits.len()
                &&& hits[pair.1 - first]@.contains(pair.0)
            },
        forall|c: int, k: int|
            0 <= c < hits.len() && 0 <= k < hits[c].len() ==> pairs@.contains(
                (#[trigger] hits[c][k], (first + c) as usize),
            ),
{
    let mut pairs: Vec<(usize, usize)> = Vec::new();
    let mut c: usize = 0;
    while c < hits.len()
        invariant
            c <= hits.len(),
            first + hits.len() <= usize::MAX,
            forall|c2: int, j: int, k: int|
                0 <= c2 < hits.len() && 0 <= j < k < hits[c2].len() ==> (#[trigger] hits[c2][j])
                    < (#[trigger] hits[c2][k]),
            forall|i: int, j: int| 0 <= i < j < pairs.len() ==> #[trigger] pairs[i] != #[trigger] pairs[j],
            forall|i: int|
                0 <= i < pairs.len() ==> {
                    let pair = #[trigger] pairs[i];
                    &&& first <= pair.1 < first + c
                    &&& hits[pair.1 - first]@.contains(pair.0)
                },
            forall|c2: int, k: int|
                0 <= c2 < c && 0 <= k < hits[c2].len() ==> pairs@.contains(
                    (#[trigger] hits[c2][k], (first + c2) as usize),
                ),
        decreases hits.len() - c,
    {
        let column: &Vec<usize> = &hits[c];
        let mut k: usize = 0;
        while k < column.len()
            invariant
                k <= column.len(),
                c < hits.len(),
                column == hits[c as int],
                first + hits.len() <= usize::MAX,
                forall|j2: int, k2: int|
                    0 <= j2 < k2 < column.len() ==> (#[trigger] column[j2]) < (#[trigger] column[k2]),
                forall|i: int, j: int|
                    0 <= i < j < pairs.len() ==> #[trigger] pairs[i] != #[trigger] pairs[j],
                forall|i: int|
                    0 <= i < pairs.len() ==> {
                        let pair = #[trigger] pairs[i];
                        &&& first <= pair.1 <= first + c
                        &&& hits[pair.1 - first]@.contains(pair.0)
                        &&& pair.1 == first + c ==> exists|k2: int|
                            0 <= k2 < k && #[trigger] column[k2] == pair.0
                    },
                forall|c2: int, k2: int|
                    0 <= c2 < c && 0 <= k2 < hits[c2].len() ==> pairs@.contains(
                        (#[trigger] hits[c2][k2], (first + c2) as usize),
                    ),
                forall|k2: int|
                    0 <= k2 < k ==> pairs@.contains((#[trigger] column[k2], (first + c) as usize)),
            decreases column.len() - k,
        {
            let ghost before = pairs@;
            let pair: (usize, usize) = (column[k], first + c);
            pairs.push(pair);
            proof {
                assert forall|c2: int, k2: int|
                    0 <= c2 < c && 0 <= k2 < hits[c2].len() implies pairs@.contains(
                    (#[trigger] hits[c2][k2], (first + c2) as usize),
                ) by {
                    let wanted = (hits[c2][k2], (first + c2) as usize);
                    let at = choose|at: int| 0 <= at < before.len() && before[at] == wanted;
                    assert(pairs@[at] == wanted);
                }
                assert forall|k2: int| 0 <= k2 < k + 1 implies pairs@.contains(
                    (#[trigger] column[k2], (first + c) as usize),
                ) by {
                    let wanted = (column[k2], (first + c) as usize);
                    if k2 < k {
                        let at = choose|at: int| 0 <= at < before.len() && before[at] == wanted;
                        assert(pairs@[at] == wanted);
                    } else {
                        assert(pairs@[before.len() as int] == wanted);
                    }
                }
            }
            k = k + 1;
        }
        c = c + 1;
    }
    pairs
}

/// Finds the cells of the view that contain `pattern`, in every column or in
/// the column `scope` only. A search of every column scans the columns side
/// by side and then puts the hits in order.
pub fn find_matches(
    rows: &Vec<usize>,
    columns: &Vec<Column>,
    pattern: &str,
    scope: Option<usize>,
) -> (results: Vec<(usize, usize)>)
    requires
        dataset_shape(columns@),
        forall|i: int| 0 <= i < rows.len() ==> #[trigger] rows[i] < row_count(columns@),
    ensures
        is_search_result(results@, columns@, rows@, pattern@, scope),
{
    let (first, hits): (usize, Vec<Vec<usize>>) = match scope {
        None => (0, scan_columns(rows, columns, pattern)),
        Some(only) => {
            let mut one: Vec<Vec<usize>> = Vec::new();
            if only < columns.len() {
                let column: &Column = &columns[only];
                one.push(scan_column(rows, column, pattern));
            }
            (only, one)
        },
    };
    proof {
        assert forall|c: int, k: int| 0 <= c < hits.len() && 0 <= k < hits[c].len() implies (#[trigger] hits[c][k])
            < rows.len() by {
            lemma_picked_exact(rows.len() as int, cell_has(columns[first + c].data@, rows@, pattern@));
        }
        assert forall|c: int, j: int, k: int|
            0 <= c < hits.len() && 0 <= j < k < hits[c].len() implies (#[trigger] hits[c][j])
            < (#[trigger] hits[c][k]) by {
            lemma_picked_exact(rows.len() as int, cell_has(columns[first + c].data@, rows@, pattern@));
        }
    }
    let pairs: Vec<(usize, usize)> = pair_up(&hits, first, rows.len());
    let results: Vec<(usize, usize)> = sort_pairs(pairs);
    proof {
        assert forall|i: int| 0 <= i < results.len() implies {
            let hit = #[trigger] results[i];
            &&& hit.0 < rows.len()
            &&& hit.1 < columns.len()
            &&& in_scope(scope, hit.1 as int)
            &&& is_match(columns@, rows@, pattern@, hit.0 as int, hit.1 as int)
        } by {
            let hit = results[i];
            let c = hit.1 - first;
            let keep = cell_has(columns[first + c].data@, rows@, pattern@);
            lemma_picked_exact(rows.len() as int, keep);
        }
        assert forall|r: int, c: int|
            0 <= r < rows.len() && 0 <= c < columns.len() && in_scope(scope, c) && #[trigger] is_match(
                columns@,
                rows@,
                pattern@,
                r,
                c,
            ) implies names(results@, r, c) by {
            let keep = cell_has(columns[c].data@, rows@, pattern@);
            lemma_picked_exact(rows.len() as int, keep);
            assert(keep(r));
            assert(hits[c - first]@.contains(r as usize));
        }
    }
    results
}

/// Finds the first match in view row `row` or below it; `0` where there is
/// none.
pub fn first_match_from(results: &Vec<(usize, usize)>, row: usize) -> (idx: usize)
    ensures
        idx == first_from(results@, row as int, 0),
        idx < results.len() || idx == 0,
{
    let mut i: usize = 0;
    while i < results.len()
        invariant
            i <= results.len(),
            first_from(results@, row as int, 0) == first_from(results@, row as int, i as int),
        decreases results.len() - i,
    {
        if results[i].0 >= row {
            return i;
        }
        i = i + 1;
    }
    0
}

impl TableView {
    /// The view with the matches `results` and the match cursor `idx`.
    pub open spec fn with_matches(&self, results: Vec<(usize, usize)>, idx: usize) -> TableView {
        TableView { search_results: results, search_idx: idx, ..*self }
    }

    /// Searches the view for `pattern`, in every column or in the column
    /// `scope` only, and returns the number of matches. The match cursor goes
    /// to the first match in the selected row or below it, to the first match
    /// where there is none. The selection stays where it is; a search without
    /// a match leaves an empty list of matches.
    pub fn search(&mut self, pattern: &str, scope: Option<usize>, columns: &Vec<Column>) -> (count: usize)
        requires
            dataset_shape(columns@),
            old(self).wf(columns@),
        ensures
            final(self).wf(columns@),
            count == final(self).search_results.len(),
            is_search_result(final(self).search_results@, columns@, old(self).rows@, pattern@, scope),
            final(self).search_idx == first_from(
                final(self).search_results@,
                old(self).offset_row + old(self).curser_row,
                0,
            ),
            *final(self) == old(self).with_matches(final(self).search_results, final(self).search_idx),
    {
        let results: Vec<(usize, usize)> = find_matches(&self.rows, columns, pattern, scope);
        let row: usize = self.offset_row + self.curser_row;
        let idx: usize = first_match_from(&results, row);
        let count: usize = results.len();
        self.search_results = results;
        self.search_idx = idx;
        proof {
            assert forall|k: int| 0 <= k < self.data.len() implies #[trigger] self.draws(
                columns@,
                k,
            ) by {
                assert(old(self).draws(columns@, k));
            }
        }
        count
    }

    /// Moves the match cursor one step, around the ends of the list, and
    /// selects the match under it. Returns whether there is a match; where
    /// there is none the view stays as it is.
    pub fn search_step(&mut self, step: SearchStep, columns: &Vec<Column>, layout: &Layout) -> (selected: bool)
        requires
            dataset_shape(columns@),
            old(self).wf(columns@),
            old(self).sized_for(*layout),
        ensures
            selected == (old(self).search_results.len() > 0),
            !selected ==> *final(self) == *old(self),
            selected ==> {
                let idx = stepped(
                    old(self).search_idx as int,
                    old(self).search_results.len() as int,
                    step,
                );
                let hit = old(self).search_results[idx];
                &&& final(self).search_idx == idx
                &&& final(self).offset_row + final(self).curser_row == hit.0
                &&& final(self).offset_column + final(self).curser_column == hit.1
                &&& final(self).refreshed_from(
                    &old(self).with_matches(old(self).search_results, idx as usize).selecting(
                        hit.0,
                        hit.1,
                    ),
                    columns@,
                    *layout,
                )
            },
    {
        let count: usize = self.search_results.len();
        if count == 0 {
            return false;
        }
        let idx: usize = match step {
            SearchStep::Current => self.search_idx,
            SearchStep::Next => if self.search_idx + 1 < count {
                self.search_idx + 1
            } else {
                0
            },
            SearchStep::Previous => if self.search_idx > 0 {
                self.search_idx - 1
            } else {
                count - 1
            },
        };
        let hit: (usize, usize) = self.search_results[idx];
        self.search_idx = idx;
        proof {
            assert forall|k: int| 0 <= k < self.data.len() implies #[trigger] self.draws(
                columns@,
                k,
            ) by {
                assert(old(self).draws(columns@, k));
            }
        }
        self.select_cell(hit.0, hit.1, columns, layout)
    }
}

} // verus!
