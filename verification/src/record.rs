//! The record inspector: one row as a list of header and value.

use crate::column::{dataset_shape, row_count, Column};
use crate::domain::TableConfig;
use crate::scroll::Scroll;
use vstd::prelude::*;
use vstd::string::*;

verus! {

/// One row of the view as a list of header and value, in a window of its
/// own.
pub struct RecordView {
    /// The view row that is shown.
    pub record_idx: usize,
    /// The window over the columns of the dataset.
    pub scroll: Scroll,
    /// The headers in the window.
    pub headers: Vec<String>,
    /// The values in the window.
    pub values: Vec<String>,
}

/// The first `max` characters of `name`.
pub open spec fn truncated(name: Seq<char>, max: usize) -> Seq<char> {
    if name.len() <= max {
        name
    } else {
        name.take(max as int)
    }
}

/// Cuts `name` after `max` characters.
pub fn truncate(name: &String, max: usize) -> (out: String)
    ensures
        out@ == truncated(name@, max),
{
    let len: usize = name.as_str().unicode_len();
    if len <= max {
        name.clone()
    } else {
        let head: &str = name.as_str().substring_char(0, max);
        String::from_str(head)
    }
}

impl RecordView {
    /// The record shows view row `record_idx` of `rows` in the window
    /// `scroll`: for each column of the window its header, cut to the longest
    /// header of `config`, and the value of the row.
    pub open spec fn shows(
        &self,
        record_idx: usize,
        scroll: Scroll,
        rows: Seq<usize>,
        columns: Seq<Column>,
        config: TableConfig,
    ) -> bool {
        &&& self.record_idx == record_idx
        &&& self.scroll == scroll
        &&& self.headers.len() == scroll.window_len()
        &&& self.values.len() == scroll.window_len()
        &&& forall|i: int|
            0 <= i < self.headers.len() ==> (#[trigger] self.headers[i])@ == truncated(
                columns[scroll.offset + i].name@,
                config.max_header_length,
            )
        &&& forall|i: int|
            0 <= i < self.values.len() ==> (#[trigger] self.values[i])@
                == columns[scroll.offset + i].data[rows[record_idx as int] as int]@
    }

    /// The record shows a row of the view, with its window over the columns
    /// of the dataset.
    pub open spec fn wf(&self, rows: Seq<usize>, columns: Seq<Column>, config: TableConfig) -> bool {
        &&& self.record_idx < rows.len()
        &&& self.scroll.wf()
        &&& self.scroll.len == columns.len()
        &&& self.shows(self.record_idx, self.scroll, rows, columns, config)
    }

    /// Builds the record of view row `record_idx` in the window `scroll`.
    pub fn build(
        record_idx: usize,
        scroll: Scroll,
        rows: &Vec<usize>,
        columns: &Vec<Column>,
        config: &TableConfig,
    ) -> (record: RecordView)
        requires
            dataset_shape(columns@),
            forall|i: int| 0 <= i < rows.len() ==> #[trigger] rows[i] < row_count(columns@),
            record_idx < rows.len(),
            scroll.wf(),
            scroll.len == columns.len(),
        ensures
            record.shows(record_idx, scroll, rows@, columns@, *config),
            record.wf(rows@, columns@, *config),
    {
        let row: usize = rows[record_idx];
        let from: usize = scroll.offset;
        let count: usize = scroll.window_items();
        let mut headers: Vec<String> = Vec::new();
        let mut values: Vec<String> = Vec::new();
        let mut i: usize = 0;
        while i < count
            invariant
                i <= count,
                from + count <= columns.len(),
                row == rows[record_idx as int],
                row < row_count(columns@),
                dataset_shape(columns@),
                headers.len() == i,
                values.len() == i,
                forall|k: int|
                    0 <= k < i ==> (#[trigger] headers[k])@ == truncated(
                        columns[from + k].name@,
                        config.max_header_length,
                    ),
                forall|k: int| 0 <= k < i ==> (#[trigger] values[k])@ == columns[from + k].data[row as int]@,
            decreases count - i,
        {
            let column: &Column = &columns[from + i];
            headers.push(truncate(&column.name, config.max_header_length));
            values.push(column.data[row].clone());
            i = i + 1;
        }
        RecordView { record_idx, scroll, headers, values }
    }

    /// The record of view row `record_idx`, with the first column selected;
    /// none where the view has no such row.
    pub fn new(
        record_idx: usize,
        rows: &Vec<usize>,
        columns: &Vec<Column>,
        config: &TableConfig,
        height: usize,
    ) -> (record: Option<RecordView>)
        requires
            dataset_shape(columns@),
            forall|i: int| 0 <= i < rows.len() ==> #[trigger] rows[i] < row_count(columns@),
        ensures
            record is Some <==> record_idx < rows.len(),
            record matches Some(r) ==> r.wf(rows@, columns@, *config) && r.record_idx == record_idx
                && r.scroll == (Scroll { offset: 0, curser: 0, len: columns.len(), height }),
    {
        if record_idx >= rows.len() {
            return None;
        }
        let scroll: Scroll = Scroll::new(columns.len(), height);
        Some(RecordView::build(record_idx, scroll, rows, columns, config))
    }

    /// Shows the next row of the view; the last row stays.
    pub fn next_record(&mut self, rows: &Vec<usize>, columns: &Vec<Column>, config: &TableConfig)
        requires
            dataset_shape(columns@),
            forall|i: int| 0 <= i < rows.len() ==> #[trigger] rows[i] < row_count(columns@),
            old(self).wf(rows@, columns@, *config),
        ensures
            final(self).wf(rows@, columns@, *config),
            final(self).scroll == old(self).scroll,
            final(self).record_idx == if old(self).record_idx + 1 < rows.len() {
                (old(self).record_idx + 1) as usize
            } else {
                old(self).record_idx
            },
    {
        let at: usize = if self.record_idx + 1 < rows.len() {
            self.record_idx + 1
        } else {
            self.record_idx
        };
        *self = RecordView::build(at, self.scroll, rows, columns, config);
    }

    /// Shows the previous row of the view; the first row stays.
    pub fn previous_record(&mut self, rows: &Vec<usize>, columns: &Vec<Column>, config: &TableConfig)
        requires
            dataset_shape(columns@),
            forall|i: int| 0 <= i < rows.len() ==> #[trigger] rows[i] < row_count(columns@),
            old(self).wf(rows@, columns@, *config),
        ensures
            final(self).wf(rows@, columns@, *config),
            final(self).scroll == old(self).scroll,
            final(self).record_idx == if old(self).record_idx > 0 {
                (old(self).record_idx - 1) as usize
            } else {
                0
            },
    {
        let at: usize = self.record_idx.saturating_sub(1);
        *self = RecordView::build(at, self.scroll, rows, columns, config);
    }

    /// Moves the selection `size` lines down.
    pub fn move_down(&mut self, size: usize, rows: &Vec<usize>, columns: &Vec<Column>, config: &TableConfig)
        requires
            dataset_shape(columns@),
            forall|i: int| 0 <= i < rows.len() ==> #[trigger] rows[i] < row_count(columns@),
            old(self).wf(rows@, columns@, *config),
        ensures
            final(self).wf(rows@, columns@, *config),
            final(self).record_idx == old(self).record_idx,
            final(self).scroll == old(self).scroll.moved_down(size),
    {
        let mut scroll: Scroll = self.scroll;
        scroll.move_down(size);
        *self = RecordView::build(self.record_idx, scroll, rows, columns, config);
    }

    /// Moves the selection `size` lines up.
    pub fn move_up(&mut self, size: usize, rows: &Vec<usize>, columns: &Vec<Column>, config: &TableConfig)
        requires
            dataset_shape(columns@),
            forall|i: int| 0 <= i < rows.len() ==> #[trigger] rows[i] < row_count(columns@),
            old(self).wf(rows@, columns@, *config),
        ensures
            final(self).wf(rows@, columns@, *config),
            final(self).record_idx == old(self).record_idx,
            final(self).scroll == old(self).scroll.moved_up(size),
    {
        let mut scroll: Scroll = self.scroll;
        scroll.move_up(size);
        *self = RecordView::build(self.record_idx, scroll, rows, columns, config);
    }

    /// Gives the window `height` lines.
    pub fn resize(&mut self, height: usize, rows: &Vec<usize>, columns: &Vec<Column>, config: &TableConfig)
        requires
            dataset_shape(columns@),
            forall|i: int| 0 <= i < rows.len() ==> #[trigger] rows[i] < row_count(columns@),
            old(self).wf(rows@, columns@, *config),
        ensures
            final(self).wf(rows@, columns@, *config),
            final(self).record_idx == old(self).record_idx,
            final(self).scroll == old(self).scroll.resized(height),
    {
        let mut scroll: Scroll = self.scroll;
        scroll.resize(height);
        *self = RecordView::build(self.record_idx, scroll, rows, columns, config);
    }
}

} // verus!
