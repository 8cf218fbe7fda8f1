//! The value histogram of one column over the rows of a view, and its
//! inspector.

use crate::column::{dataset_shape, Column};
use crate::order::{lemma_sorting_keeps_items, sort_indices, IndexOrder};
use crate::scroll::Scroll;
use crate::sort::lemma_text_before_chain;
use crate::table_view::TableView;
use crate::text::{
    decimal, lemma_text_lt_irreflexive, lemma_text_lt_total, lemma_text_lt_transitive, str_lt,
    text_lt, usize_to_string,
};
use vstd::prelude::*;
use vstd::seq_lib::*;
use vstd::std_specs::hash::*;
use vstd::string::*;

verus! {

/// The distinct values of one column of a view with the number of rows that
/// hold each, most frequent first.
pub struct Histogram {
    pub counts: Vec<usize>,
    pub values: Vec<String>,
}

/// The number of the dataset rows `rows` whose cell in `column` is `v`.
pub open spec fn count_rows(rows: Seq<usize>, cells: Seq<String>, v: Seq<char>) -> nat
    decreases rows.len(),
{
    if rows.len() == 0 {
        0
    } else {
        count_rows(rows.drop_last(), cells, v) + if cells[rows.last() as int]@ == v {
            1nat
        } else {
            0nat
        }
    }
}

/// An entry with count `c1` and value `v1` stands before one with `c2` and
/// `v2`: the larger count first, and of equal counts the later text first.
pub open spec fn entry_before(c1: usize, v1: Seq<char>, c2: usize, v2: Seq<char>) -> bool {
    c1 > c2 || (c1 == c2 && text_lt(v2, v1))
}

/// `counts` and `values` are the histogram of `column` over the rows `rows`:
/// every value of a row is listed, each with the number of rows that hold it,
/// in descending order of count and, for equal counts, of value.
pub open spec fn is_histogram(
    counts: Seq<usize>,
    values: Seq<String>,
    cells: Seq<String>,
    rows: Seq<usize>,
) -> bool {
    &&& counts.len() == values.len()
    &&& forall|k: int|
        0 <= k < values.len() ==> (#[trigger] counts[k]) == count_rows(rows, cells, values[k]@)
            && counts[k] > 0
    &&& forall|r: int|
        0 <= r < rows.len() ==> lists(values, cells[#[trigger] rows[r] as int]@)
    &&& forall|i: int, j: int|
        0 <= i < j < values.len() ==> entry_before(
            #[trigger] counts[i],
            values[i]@,
            #[trigger] counts[j],
            values[j]@,
        )
}

/// `values` lists the text `v`.
pub open spec fn lists(values: Seq<String>, v: Seq<char>) -> bool {
    exists|k: int| 0 <= k < values.len() && (#[trigger] values[k])@ == v
}

/// The sum of `counts`.
pub open spec fn total(counts: Seq<usize>) -> nat
    decreases counts.len(),
{
    if counts.len() == 0 {
        0
    } else {
        total(counts.drop_last()) + counts.last() as nat
    }
}

/// The share of `count` in `total`, in whole percent.
pub open spec fn percent(count: usize, total: usize) -> nat {
    if total == 0 {
        0
    } else {
        ((count * 100) / (total as int)) as nat
    }
}

/// How a count is shown: its share of the rows in percent, and the count.
pub open spec fn count_label(count: usize, total: usize) -> Seq<char> {
    decimal(percent(count, total)) + "% "@ + decimal(count as nat)
}

/// Writes a count as its share of `total` rows and the count itself.
pub fn format_count(count: usize, total: usize) -> (label: String)
    requires
        count <= total,
    ensures
        label@ == count_label(count, total),
{
    let share: usize = if total == 0 {
        0
    } else {
        let wide: u128 = (count as u128) * 100 / (total as u128);
        assert(wide <= 100) by (nonlinear_arith)
            requires
                wide == (count as int * 100) / (total as int),
                0 <= count <= total,
                total > 0,
        ;
        wide as usize
    };
    let mut label: String = usize_to_string(share);
    label.append("% ");
    label.append(usize_to_string(count).as_str());
    label
}

/// The order of the rows of a column by their text.
pub struct ByText<'a> {
    pub data: &'a Vec<String>,
}

impl<'a> IndexOrder for ByText<'a> {
    open spec fn admits(&self, a: usize) -> bool {
        a < self.data.len()
    }

    open spec fn before(&self, a: usize, b: usize) -> bool {
        text_lt(self.data[a as int]@, self.data[b as int]@)
    }

    proof fn lemma_asymmetric(&self, a: usize, b: usize) {
        lemma_text_lt_total(self.data[a as int]@, self.data[b as int]@);
    }

    proof fn lemma_chain(&self, a: usize, b: usize, c: usize) {
        lemma_text_before_chain(self.data[a as int]@, self.data[b as int]@, self.data[c as int]@, false);
    }

    fn comes_before(&self, a: usize, b: usize) -> (r: bool) {
        str_lt(self.data[a].as_str(), self.data[b].as_str())
    }
}

/// The order of the entries of a histogram.
pub struct ByCount<'a> {
    pub counts: &'a Vec<usize>,
    pub values: &'a Vec<String>,
}

impl<'a> IndexOrder for ByCount<'a> {
    open spec fn admits(&self, a: usize) -> bool {
        a < self.counts.len() && a < self.values.len()
    }

    open spec fn before(&self, a: usize, b: usize) -> bool {
        entry_before(
            self.counts[a as int],
            self.values[a as int]@,
            self.counts[b as int],
            self.values[b as int]@,
        )
    }

    proof fn lemma_asymmetric(&self, a: usize, b: usize) {
        lemma_text_lt_total(self.values[a as int]@, self.values[b as int]@);
    }

    proof fn lemma_chain(&self, a: usize, b: usize, c: usize) {
        if self.counts[a as int] == self.counts[b as int] && self.counts[b as int]
            == self.counts[c as int] {
            lemma_text_before_chain(
                self.values[c as int]@,
                self.values[b as int]@,
                self.values[a as int]@,
                false,
            );
        }
    }

    fn comes_before(&self, a: usize, b: usize) -> (r: bool) {
        let left: usize = self.counts[a];
        let right: usize = self.counts[b];
        if left != right {
            left > right
        } else {
            str_lt(self.values[b].as_str(), self.values[a].as_str())
        }
    }
}

/// A copy of `rows`.
pub fn copy_rows(rows: &Vec<usize>) -> (out: Vec<usize>)
    ensures
        out@ == rows@,
{
    let mut out: Vec<usize> = Vec::new();
    let mut i: usize = 0;
    while i < rows.len()
        invariant
            i <= rows.len(),
            out@ == rows@.take(i as int),
        decreases rows.len() - i,
    {
        out.push(rows[i]);
        i = i + 1;
    }
    out
}

/// The numbers from `0` up to, not including, `n`.
pub fn identity_rows(n: usize) -> (out: Vec<usize>)
    ensures
        out@ == Seq::new(n as nat, |i: int| i as usize),
{
    let mut out: Vec<usize> = Vec::new();
    let mut i: usize = 0;
    while i < n
        invariant
            i <= n,
            out@ == Seq::new(i as nat, |k: int| k as usize),
        decreases n - i,
    {
        out.push(i);
        i = i + 1;
    }
    out
}

/// The values of the rows `sorted`, which stand in the order of their text,
/// each once and in that order, with the number of rows that hold each.
fn count_runs(sorted: &Vec<usize>, cells: &Vec<String>) -> (runs: (Vec<usize>, Vec<String>))
    requires
        forall|i: int| 0 <= i < sorted.len() ==> #[trigger] sorted[i] < cells.len(),
        forall|i: int, j: int|
            0 <= i < j < sorted.len() ==> !text_lt(
                cells[#[trigger] sorted[j] as int]@,
                cells[#[trigger] sorted[i] as int]@,
            ),
    ensures
        runs.0.len() == runs.1.len(),
        forall|a: int, b: int|
            0 <= a < b < runs.1.len() ==> text_lt((#[trigger] runs.1[a])@, (#[trigger] runs.1[b])@),
        forall|k: int|
            0 <= k < runs.1.len() ==> (#[trigger] runs.0[k]) == count_rows(sorted@, cells@, runs.1[k]@)
                && runs.0[k] > 0,
        forall|r: int|
            0 <= r < sorted.len() ==> lists(runs.1@, cells[#[trigger] sorted[r] as int]@),
{
    let mut counts: Vec<usize> = Vec::new();
    let mut values: Vec<String> = Vec::new();
    let mut i: usize = 0;
    while i < sorted.len()
        invariant
            i <= sorted.len(),
            counts.len() == values.len(),
            values.len() <= i,
            forall|k: int| 0 <= k < sorted.len() ==> #[trigger] sorted[k] < cells.len(),
            forall|a: int, b: int|
                0 <= a < b < sorted.len() ==> !text_lt(
                    cells[#[trigger] sorted[b] as int]@,
                    cells[#[trigger] sorted[a] as int]@,
                ),
            i > 0 ==> values.len() > 0 && values[values.len() - 1]@ == cells[sorted[i - 1] as int]@,
            forall|a: int, b: int|
                0 <= a < b < values.len() ==> text_lt((#[trigger] values[a])@, (#[trigger] values[b])@),
            forall|k: int|
                0 <= k < values.len() ==> (#[trigger] counts[k]) == count_rows(
                    sorted@.take(i as int),
                    cells@,
                    values[k]@,
                ) && counts[k] > 0,
            forall|r: int| 0 <= r < i ==> lists(values@, cells[#[trigger] sorted[r] as int]@),
        decreases sorted.len() - i,
    {
        let text: &String = &cells[sorted[i]];
        let n: usize = values.len();
        let ghost before = values@;
        let ghost seen = sorted@.take(i as int);
        proof {
            assert(sorted@.take(i + 1).drop_last() =~= seen);
        }
        if n > 0 && values[n - 1] == *text {
            proof {
                lemma_count_bound(seen, cells@, text@);
            }
            let more: usize = counts[n - 1] + 1;
            counts.set(n - 1, more);
        } else {
            proof {
                if n > 0 {
                    let last = values[n - 1]@;
                    lemma_text_lt_total(last, text@);
                    assert forall|k: int| 0 <= k < n implies text_lt((#[trigger] values[k])@, text@) by {
                        if k < n - 1 {
                            lemma_text_lt_transitive(values[k]@, last, text@);
                        }
                    }
                }
                lemma_count_none(seen, cells@, text@);
            }
            values.push(text.clone());
            counts.push(1);
        }
        proof {
            assert forall|r: int| 0 <= r < i + 1 implies lists(
                values@,
                cells[#[trigger] sorted[r] as int]@,
            ) by {
                if r < i {
                    let k = choose|k: int|
                        0 <= k < before.len() && (#[trigger] before[k])@ == cells[sorted[r] as int]@;
                    assert(values@[k]@ == before[k]@);
                } else {
                    assert(values@[values.len() - 1]@ == text@);
                }
            }
        }
        i = i + 1;
    }
    proof {
        assert(sorted@.take(i as int) =~= sorted@);
    }
    (counts, values)
}

impl Histogram {
    /// The histogram describes the column with the cells `cells` over the
    /// rows `rows`.
    pub open spec fn describes(&self, cells: Seq<String>, rows: Seq<usize>) -> bool {
        is_histogram(self.counts@, self.values@, cells, rows)
    }

    /// Counts how often each value of the column with the cells `cells`
    /// occurs in the rows `rows`.
    pub fn compute(rows: &Vec<usize>, cells: &Vec<String>) -> (histogram: Histogram)
        requires
            forall|i: int| 0 <= i < rows.len() ==> #[trigger] rows[i] < cells.len(),
        ensures
            histogram.describes(cells@, rows@),
    {
        let by_text = ByText { data: cells };
        let sorted: Vec<usize> = sort_indices(&by_text, copy_rows(rows));
        let (counts, values) = count_runs(&sorted, cells);
        let n: usize = values.len();
        let by_count = ByCount { counts: &counts, values: &values };
        let ids: Vec<usize> = identity_rows(n);
        let places: Vec<usize> = sort_indices(&by_count, ids);
        proof {
            lemma_sorting_keeps_items(&by_count, ids@, places@);
        }
        let mut out_counts: Vec<usize> = Vec::new();
        let mut out_values: Vec<String> = Vec::new();
        let mut i: usize = 0;
        while i < n
            invariant
                i <= n,
                n == places.len(),
                n == values.len(),
                n == counts.len(),
                out_counts.len() == i,
                out_values.len() == i,
                forall|k: int| 0 <= k < n ==> #[trigger] places[k] < n,
                forall|k: int| 0 <= k < i ==> #[trigger] out_counts[k] == counts[places[k] as int],
                forall|k: int| 0 <= k < i ==> (#[trigger] out_values[k])@ == values[places[k] as int]@,
            decreases n - i,
        {
            out_counts.push(counts[places[i]]);
            out_values.push(values[places[i]].clone());
            i = i + 1;
        }
        proof {
            assert forall|k: int| 0 <= k < n implies (#[trigger] out_counts[k]) == count_rows(
                rows@,
                cells@,
                out_values[k]@,
            ) && out_counts[k] > 0 by {
                let p = places[k] as int;
                lemma_count_permutation(sorted@, rows@, cells@, values[p]@);
            }
            assert forall|r: int| 0 <= r < rows.len() implies lists(
                out_values@,
                cells[#[trigger] rows[r] as int]@,
            ) by {
                let row = rows[r];
                to_multiset_contains(rows@, row);
                to_multiset_contains(sorted@, row);
                let k = choose|k: int|
                    0 <= k < values.len() && (#[trigger] values[k])@ == cells[row as int]@;
                assert(ids@[k] == k as usize);
                assert(ids@.contains(k as usize));
                let at = choose|at: int| 0 <= at < places.len() && places[at] == k as usize;
                assert(out_values@[at]@ == values[k]@);
            }
        }
        Histogram { counts: out_counts, values: out_values }
    }
}

// ---- counting is independent of the order of the rows ----

proof fn lemma_count_remove(rows: Seq<usize>, cells: Seq<String>, v: Seq<char>, i: int)
    requires
        0 <= i < rows.len(),
    ensures
        count_rows(rows, cells, v) == count_rows(rows.remove(i), cells, v) + if cells[rows[i] as int]@
            == v {
            1nat
        } else {
            0nat
        },
    decreases rows.len(),
{
    if i < rows.len() - 1 {
        lemma_count_remove(rows.drop_last(), cells, v, i);
        assert(rows.remove(i).drop_last() =~= rows.drop_last().remove(i));
    }
}

/// Two row mappings with the same rows, each as often, hold every value
/// equally often.
pub proof fn lemma_count_permutation(a: Seq<usize>, b: Seq<usize>, cells: Seq<String>, v: Seq<char>)
    requires
        a.to_multiset() == b.to_multiset(),
    ensures
        count_rows(a, cells, v) == count_rows(b, cells, v),
    decreases a.len(),
{
    to_multiset_len(a);
    to_multiset_len(b);
    if a.len() > 0 {
        let x = a.last();
        to_multiset_contains(a, x);
        to_multiset_contains(b, x);
        let i = choose|i: int| 0 <= i < b.len() && b[i] == x;
        to_multiset_remove(b, i);
        to_multiset_remove(a, a.len() - 1);
        lemma_count_permutation(a.drop_last(), b.remove(i), cells, v);
        lemma_count_remove(b, cells, v, i);
    }
}

/// A histogram over a row mapping is the histogram over every reordering of
/// it.
pub proof fn lemma_histogram_permutation(
    counts: Seq<usize>,
    values: Seq<String>,
    cells: Seq<String>,
    a: Seq<usize>,
    b: Seq<usize>,
)
    requires
        is_histogram(counts, values, cells, a),
        a.to_multiset() == b.to_multiset(),
    ensures
        is_histogram(counts, values, cells, b),
{
    assert forall|k: int| 0 <= k < values.len() implies (#[trigger] counts[k]) == count_rows(
        b,
        cells,
        values[k]@,
    ) && counts[k] > 0 by {
        lemma_count_permutation(a, b, cells, values[k]@);
    }
    assert forall|r: int| 0 <= r < b.len() implies lists(
        values,
        cells[#[trigger] b[r] as int]@,
    ) by {
        let row = b[r];
        to_multiset_contains(a, row);
        to_multiset_contains(b, row);
    }
}

proof fn lemma_count_none(rows: Seq<usize>, cells: Seq<String>, v: Seq<char>)
    requires
        forall|r: int| 0 <= r < rows.len() ==> cells[#[trigger] rows[r] as int]@ != v,
    ensures
        count_rows(rows, cells, v) == 0,
    decreases rows.len(),
{
    if rows.len() > 0 {
        lemma_count_none(rows.drop_last(), cells, v);
    }
}

proof fn lemma_count_bound(rows: Seq<usize>, cells: Seq<String>, v: Seq<char>)
    ensures
        count_rows(rows, cells, v) <= rows.len(),
    decreases rows.len(),
{
    if rows.len() > 0 {
        lemma_count_bound(rows.drop_last(), cells, v);
    }
}

// ---- the counts of a histogram add up to the number of rows ----

/// The sum of the counts of the first `n` of `values`.
spec fn sum_counts(rows: Seq<usize>, cells: Seq<String>, values: Seq<String>, n: int) -> nat
    decreases n,
{
    if n <= 0 {
        0
    } else {
        sum_counts(rows, cells, values, n - 1) + count_rows(rows, cells, values[n - 1]@)
    }
}

/// How many of the first `n` of `values` are the text `v`.
spec fn hits(values: Seq<String>, v: Seq<char>, n: int) -> nat
    decreases n,
{
    if n <= 0 {
        0
    } else {
        hits(values, v, n - 1) + if values[n - 1]@ == v {
            1nat
        } else {
            0nat
        }
    }
}

proof fn lemma_sum_counts_step(rows: Seq<usize>, cells: Seq<String>, values: Seq<String>, n: int)
    requires
        rows.len() > 0,
    ensures
        sum_counts(rows, cells, values, n) == sum_counts(rows.drop_last(), cells, values, n) + hits(
            values,
            cells[rows.last() as int]@,
            n,
        ),
    decreases n,
{
    if n > 0 {
        lemma_sum_counts_step(rows, cells, values, n - 1);
    }
}

proof fn lemma_hits_distinct(values: Seq<String>, v: Seq<char>, n: int)
    requires
        0 <= n <= values.len(),
        forall|i: int, j: int| 0 <= i < j < values.len() ==> (#[trigger] values[i])@ != (#[trigger] values[j])@,
    ensures
        hits(values, v, n) <= 1,
        (exists|k: int| 0 <= k < n && (#[trigger] values[k])@ == v) ==> hits(values, v, n) == 1,
        hits(values, v, n) == 1 ==> exists|k: int| 0 <= k < n && (#[trigger] values[k])@ == v,
    decreases n,
{
    if n > 0 {
        lemma_hits_distinct(values, v, n - 1);
    }
}

proof fn lemma_sum_counts_total(rows: Seq<usize>, cells: Seq<String>, values: Seq<String>)
    requires
        forall|i: int, j: int| 0 <= i < j < values.len() ==> (#[trigger] values[i])@ != (#[trigger] values[j])@,
        forall|r: int| 0 <= r < rows.len() ==> lists(values, cells[#[trigger] rows[r] as int]@),
    ensures
        sum_counts(rows, cells, values, values.len() as int) == rows.len(),
    decreases rows.len(),
{
    if rows.len() == 0 {
        lemma_sum_counts_empty(rows, cells, values, values.len() as int);
    } else {
        let rest = rows.drop_last();
        lemma_sum_counts_total(rest, cells, values);
        lemma_sum_counts_step(rows, cells, values, values.len() as int);
        let v = cells[rows.last() as int]@;
        lemma_hits_distinct(values, v, values.len() as int);
    }
}

proof fn lemma_sum_counts_empty(rows: Seq<usize>, cells: Seq<String>, values: Seq<String>, n: int)
    requires
        rows.len() == 0,
    ensures
        sum_counts(rows, cells, values, n) == 0,
    decreases n,
{
    if n > 0 {
        lemma_sum_counts_empty(rows, cells, values, n - 1);
    }
}

proof fn lemma_total_is_sum(
    counts: Seq<usize>,
    values: Seq<String>,
    cells: Seq<String>,
    rows: Seq<usize>,
    n: int,
)
    requires
        0 <= n <= counts.len() == values.len(),
        forall|k: int| 0 <= k < values.len() ==> (#[trigger] counts[k]) == count_rows(rows, cells, values[k]@),
    ensures
        total(counts.take(n)) == sum_counts(rows, cells, values, n),
    decreases n,
{
    if n > 0 {
        lemma_total_is_sum(counts, values, cells, rows, n - 1);
        assert(counts.take(n).drop_last() =~= counts.take(n - 1));
    }
}

/// The counts of a histogram add up to the number of rows of the view.
pub proof fn lemma_histogram_total(
    counts: Seq<usize>,
    values: Seq<String>,
    cells: Seq<String>,
    rows: Seq<usize>,
)
    requires
        is_histogram(counts, values, cells, rows),
    ensures
        total(counts) == rows.len(),
{
    assert forall|i: int, j: int| 0 <= i < j < values.len() implies (#[trigger] values[i])@ != (#[trigger] values[j])@ by {
        lemma_text_lt_irreflexive(values[i]@);
        assert(entry_before(counts[i], values[i]@, counts[j], values[j]@));
    }
    lemma_sum_counts_total(rows, cells, values);
    lemma_total_is_sum(counts, values, cells, rows, counts.len() as int);
    assert(counts.take(counts.len() as int) =~= counts);
}

/// No count of a histogram is larger than the number of rows.
pub proof fn lemma_histogram_bounds(
    counts: Seq<usize>,
    values: Seq<String>,
    cells: Seq<String>,
    rows: Seq<usize>,
)
    requires
        is_histogram(counts, values, cells, rows),
    ensures
        forall|k: int| 0 <= k < counts.len() ==> #[trigger] counts[k] <= rows.len(),
{
    assert forall|k: int| 0 <= k < counts.len() implies #[trigger] counts[k] <= rows.len() by {
        lemma_count_bound(rows, cells, values[k]@);
    }
}

impl TableView {
    /// The view with the histogram cache `cache`.
    pub open spec fn with_histograms(&self, cache: std::collections::HashMap<usize, Histogram>) -> TableView {
        TableView { column_histograms: cache, ..*self }
    }

    /// Computes the histogram of column `column` over the rows of the view,
    /// unless the view holds it already, and keeps it. Returns whether there
    /// is such a column; where there is none the view stays as it is.
    pub fn ensure_histogram(&mut self, column: usize, columns: &Vec<Column>) -> (present: bool)
        requires
            dataset_shape(columns@),
            old(self).wf(columns@),
        ensures
            present == (column < columns.len()),
            !present ==> *final(self) == *old(self),
            final(self).wf(columns@),
            *final(self) == old(self).with_histograms(final(self).column_histograms),
            present ==> final(self).column_histograms@.contains_key(column),
            present ==> final(self).column_histograms@[column].describes(
                columns[column as int].data@,
                old(self).rows@,
            ),
            forall|c: usize| #[trigger]
                old(self).column_histograms@.contains_key(c) ==> final(self).column_histograms@.contains_key(c)
                    && final(self).column_histograms@[c] == old(self).column_histograms@[c],
            forall|c: usize| #[trigger]
                final(self).column_histograms@.contains_key(c) ==> c == column || old(
                    self,
                ).column_histograms@.contains_key(c),
    {
        broadcast use group_hash_axioms;

        if column >= columns.len() {
            return false;
        }
        if self.column_histograms.contains_key(&column) {
            return true;
        }
        let counted: &Column = &columns[column];
        let histogram: Histogram = Histogram::compute(&self.rows, &counted.data);
        self.column_histograms.insert(column, histogram);
        proof {
            assert forall|k: int| 0 <= k < self.data.len() implies #[trigger] self.draws(
                columns@,
                k,
            ) by {
                assert(old(self).draws(columns@, k));
            }
        }
        true
    }

    /// The histogram that the view holds for column `column`.
    pub fn histogram(&self, column: usize) -> (histogram: Option<&Histogram>)
        ensures
            histogram is Some <==> self.column_histograms@.contains_key(column),
            histogram matches Some(h) ==> *h == self.column_histograms@[column],
    {
        broadcast use group_hash_axioms;

        self.column_histograms.get(&column)
    }
}

/// The histogram of one column, in a window of its own.
pub struct HistogramView {
    /// The column of the dataset that is counted.
    pub column_idx: usize,
    /// The window over the entries of the histogram.
    pub scroll: Scroll,
    /// The values in the window.
    pub values: Vec<String>,
    /// The counts in the window, as they are shown.
    pub counts: Vec<String>,
}

impl HistogramView {
    /// The view shows the entries of `histogram` in the window `scroll`: the
    /// value of each, and its count as a share of `total` rows.
    pub open spec fn shows(&self, column_idx: usize, scroll: Scroll, histogram: Histogram, total: usize) -> bool {
        &&& self.column_idx == column_idx
        &&& self.scroll == scroll
        &&& self.values.len() == scroll.window_len()
        &&& self.counts.len() == scroll.window_len()
        &&& forall|i: int|
            0 <= i < self.values.len() ==> (#[trigger] self.values[i])@
                == histogram.values[scroll.offset + i]@
        &&& forall|i: int|
            0 <= i < self.counts.len() ==> (#[trigger] self.counts[i])@ == count_label(
                histogram.counts[scroll.offset + i],
                total,
            )
    }

    /// The view shows `histogram` in a window over its entries.
    pub open spec fn wf(&self, histogram: Histogram, total: usize) -> bool {
        &&& self.scroll.wf()
        &&& self.scroll.len == histogram.values.len()
        &&& self.shows(self.column_idx, self.scroll, histogram, total)
    }

    /// `histogram` has a count for each value, none larger than `total`.
    pub open spec fn fits(histogram: Histogram, total: usize) -> bool {
        &&& histogram.counts.len() == histogram.values.len()
        &&& forall|k: int| 0 <= k < histogram.counts.len() ==> #[trigger] histogram.counts[k] <= total
    }

    /// Builds the view of `histogram` in the window `scroll`.
    pub fn build(column_idx: usize, scroll: Scroll, histogram: &Histogram, total: usize) -> (view: HistogramView)
        requires
            Self::fits(*histogram, total),
            scroll.wf(),
            scroll.len == histogram.values.len(),
        ensures
            view.shows(column_idx, scroll, *histogram, total),
            view.wf(*histogram, total),
    {
        let from: usize = scroll.offset;
        let count: usize = scroll.window_items();
        let mut values: Vec<String> = Vec::new();
        let mut counts: Vec<String> = Vec::new();
        let mut i: usize = 0;
        while i < count
            invariant
                i <= count,
                from + count <= histogram.values.len(),
                Self::fits(*histogram, total),
                values.len() == i,
                counts.len() == i,
                forall|k: int| 0 <= k < i ==> (#[trigger] values[k])@ == histogram.values[from + k]@,
                forall|k: int|
                    0 <= k < i ==> (#[trigger] counts[k])@ == count_label(
                        histogram.counts[from + k],
                        total,
                    ),
            decreases count - i,
        {
            values.push(histogram.values[from + i].clone());
            counts.push(format_count(histogram.counts[from + i], total));
            i = i + 1;
        }
        HistogramView { column_idx, scroll, values, counts }
    }

    /// The view of `histogram` with the first entry selected.
    pub fn new(column_idx: usize, histogram: &Histogram, total: usize, height: usize) -> (view: HistogramView)
        requires
            Self::fits(*histogram, total),
        ensures
            view.wf(*histogram, total),
            view.column_idx == column_idx,
            view.scroll == (Scroll { offset: 0, curser: 0, len: histogram.values.len(), height }),
    {
        let scroll: Scroll = Scroll::new(histogram.values.len(), height);
        HistogramView::build(column_idx, scroll, histogram, total)
    }

    /// Moves the selection `size` entries down.
    pub fn move_down(&mut self, size: usize, histogram: &Histogram, total: usize)
        requires
            Self::fits(*histogram, total),
            old(self).wf(*histogram, total),
        ensures
            final(self).wf(*histogram, total),
            final(self).column_idx == old(self).column_idx,
            final(self).scroll == old(self).scroll.moved_down(size),
    {
        let mut scroll: Scroll = self.scroll;
        scroll.move_down(size);
        *self = HistogramView::build(self.column_idx, scroll, histogram, total);
    }

    /// Moves the selection `size` entries up.
    pub fn move_up(&mut self, size: usize, histogram: &Histogram, total: usize)
        requires
            Self::fits(*histogram, total),
            old(self).wf(*histogram, total),
        ensures
            final(self).wf(*histogram, total),
            final(self).column_idx == old(self).column_idx,
            final(self).scroll == old(self).scroll.moved_up(size),
    {
        let mut scroll: Scroll = self.scroll;
        scroll.move_up(size);
        *self = HistogramView::build(self.column_idx, scroll, histogram, total);
    }

    /// Gives the window `height` lines.
    pub fn resize(&mut self, height: usize, histogram: &Histogram, total: usize)
        requires
            Self::fits(*histogram, total),
            old(self).wf(*histogram, total),
        ensures
            final(self).wf(*histogram, total),
            final(self).column_idx == old(self).column_idx,
            final(self).scroll == old(self).scroll.resized(height),
    {
        let mut scroll: Scroll = self.scroll;
        scroll.resize(height);
        *self = HistogramView::build(self.column_idx, scroll, histogram, total);
    }
}

} // verus!
