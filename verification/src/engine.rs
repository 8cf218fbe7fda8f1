//! The operations of the engine and the mode state machine that routes
//! messages to them.

use crate::clipboard::{csv_row, quote_row};
use crate::column::{collapse_toggled, expand_toggled, Column, ColumnStatus};
use crate::domain::{CommandKind, Key, KeyPress, Message, TVError};
use crate::filter::{
    cell_contains, cell_is, filtered_name, lemma_picked_exact, matching_rows, picked, resolved,
    rows_with_value,
};
use crate::histogram::{lemma_histogram_bounds, Histogram, HistogramView};
use crate::layout::Layout;
use crate::model::{Mode, Model, Status};
use crate::record::RecordView;
use crate::scroll::Scroll;
use crate::search::{first_from, is_search_result, stepped, SearchStep};
use crate::sort::sorted_by;
use crate::table_view::{lemma_selection_in_range, lemma_window_invariant, TableView};
use vstd::prelude::*;
use vstd::string::*;

verus! {

/// The number of rows that a page key moves over in a window of `height`
/// rows.
pub open spec fn page_of(height: usize) -> usize {
    if height > 0 {
        height
    } else {
        1
    }
}

/// The message moves the selection of a table view.
pub open spec fn is_navigation(message: Message) -> bool {
    message is MoveUp || message is MoveDown || message is MoveLeft || message is MoveRight
        || message is PageUp || message is PageDown || message is MoveBeginning
        || message is MoveEnd || message is MoveFirstColumn || message is MoveLastColumn
}

/// The view `view` with its selection moved as `message` asks, before it is
/// drawn again.
pub open spec fn navigated(view: TableView, message: Message, columns: Seq<Column>) -> TableView {
    match message {
        Message::MoveUp => view.moved_up(1),
        Message::MoveDown => view.moved_down(1),
        Message::MoveLeft => view.moved_left(1),
        Message::MoveRight => view.moved_right(1, columns),
        Message::PageUp => view.moved_up(page_of(view.height)),
        Message::PageDown => view.moved_down(page_of(view.height)),
        Message::MoveBeginning => view.at_beginning(),
        Message::MoveEnd => view.at_end(),
        Message::MoveFirstColumn => view.at_first_column(),
        Message::MoveLastColumn => view.at_last_column(columns),
        _ => view,
    }
}

impl Model {
    /// The views below the active one are those of `before`.
    pub open spec fn same_parents(&self, before: &Model) -> bool {
        &&& self.views.len() == before.views.len()
        &&& forall|i: int| 0 <= i < self.views.len() - 1 ==> #[trigger] self.views[i] == before.views[i]
    }

    /// Nothing but the active view differs from `before`.
    pub open spec fn same_but_active(&self, before: &Model) -> bool {
        &&& *self == (Model { views: self.views, ..*before })
        &&& self.same_parents(before)
    }

    /// The selected column of the dataset.
    pub open spec fn selected_column(&self) -> int {
        self.active().offset_column + self.active().curser_column
    }

    /// The selected row of the active view.
    pub open spec fn selected_row(&self) -> int {
        self.active().offset_row + self.active().curser_row
    }

    /// Computes the layout from the size of the terminal and the index
    /// column of the active view, and draws the active view again.
    pub fn refresh(&mut self)
        requires
            old(self).stack_wf(),
        ensures
            final(self).stack_wf(),
            *final(self) == (Model { layout: final(self).layout, views: final(self).views, ..*old(self) }),
            final(self).layout == Layout::layout_for(
                old(self).width,
                old(self).height,
                old(self).active().show_index,
                old(self).active().index.width,
            ),
            final(self).same_parents(old(self)),
            final(self).active().refreshed_from(
                &old(self).active(),
                old(self).columns@,
                final(self).layout,
            ),
    {
        let last: usize = self.views.len() - 1;
        self.layout = Layout::compute(
            self.width,
            self.height,
            self.views[last].show_index,
            self.views[last].index.width,
        );
        self.views[last].refresh(&self.columns, &self.layout);
    }

    /// Moves the selection of the active view as a navigation message asks.
    pub fn navigate(&mut self, message: Message)
        requires
            old(self).wf(),
            is_navigation(message),
        ensures
            final(self).wf(),
            final(self).same_but_active(old(self)),
            final(self).active().refreshed_from(
                &navigated(old(self).active(), message, old(self).columns@),
                old(self).columns@,
                old(self).layout,
            ),
    {
        let last: usize = self.views.len() - 1;
        let page: usize = if self.views[last].height > 0 {
            self.views[last].height
        } else {
            1
        };
        match message {
            Message::MoveUp => self.views[last].move_up(1, &self.columns, &self.layout),
            Message::MoveDown => self.views[last].move_down(1, &self.columns, &self.layout),
            Message::MoveLeft => self.views[last].move_left(1, &self.columns, &self.layout),
            Message::MoveRight => self.views[last].move_right(1, &self.columns, &self.layout),
            Message::PageUp => self.views[last].move_up(page, &self.columns, &self.layout),
            Message::PageDown => self.views[last].move_down(page, &self.columns, &self.layout),
            Message::MoveBeginning => self.views[last].move_beginning(&self.columns, &self.layout),
            Message::MoveEnd => self.views[last].move_end(&self.columns, &self.layout),
            Message::MoveFirstColumn => self.views[last].move_first_column(&self.columns, &self.layout),
            _ => self.views[last].move_last_column(&self.columns, &self.layout),
        }
    }

    /// The columns of `self` are those of `before`, but for the status and
    /// the render width of column `c`.
    pub open spec fn same_columns_but(&self, before: &Model, c: int) -> bool {
        &&& self.columns.len() == before.columns.len()
        &&& forall|i: int|
            0 <= i < self.columns.len() && i != c ==> #[trigger] self.columns[i] == before.columns[i]
        &&& 0 <= c < self.columns.len() ==> {
            &&& self.columns[c].idx == before.columns[c].idx
            &&& self.columns[c].name == before.columns[c].name
            &&& self.columns[c].numeric == before.columns[c].numeric
            &&& self.columns[c].data == before.columns[c].data
            &&& self.columns[c].numbers == before.columns[c].numbers
            &&& self.columns[c].width_max == before.columns[c].width_max
            &&& self.columns[c].width == self.columns[c].wanted_width(self.config)
        }
    }

    /// The engine after a press of the collapse toggle, or of the expand
    /// toggle, on the selected column: the column has its new status and
    /// width, and the active view is drawn again.
    pub open spec fn restyled(&self, before: &Model, collapse: bool) -> bool {
        let c = before.selected_column();
        if before.columns.len() == 0 {
            *self == *before
        } else {
            &&& *self == (Model {
                columns: self.columns,
                layout: self.layout,
                views: self.views,
                ..*before
            })
            &&& self.same_columns_but(before, c)
            &&& self.columns[c].status == if collapse {
                collapse_toggled(before.columns[c].status)
            } else {
                expand_toggled(before.columns[c].status)
            }
            &&& self.same_parents(before)
            &&& self.layout == Layout::layout_for(
                before.width,
                before.height,
                before.active().show_index,
                before.active().index.width,
            )
            &&& self.active().refreshed_from(&before.active(), self.columns@, self.layout)
        }
    }

    /// Collapses the selected column, or brings it back to normal where it is
    /// collapsed.
    pub fn toggle_collapse(&mut self)
        requires
            old(self).wf(),
        ensures
            final(self).wf(),
            final(self).restyled(old(self), true),
    {
        if self.columns.len() == 0 {
            return;
        }
        let last: usize = self.views.len() - 1;
        proof {
            lemma_selection_in_range(self.active(), self.columns@);
        }
        let c: usize = self.views[last].offset_column + self.views[last].curser_column;
        self.columns[c].toggle_collapse(&self.config);
        self.refresh();
    }

    /// Expands the selected column where it is normal, or brings it back to
    /// normal where it is expanded or collapsed.
    pub fn toggle_expand(&mut self)
        requires
            old(self).wf(),
        ensures
            final(self).wf(),
            final(self).restyled(old(self), false),
    {
        if self.columns.len() == 0 {
            return;
        }
        let last: usize = self.views.len() - 1;
        proof {
            lemma_selection_in_range(self.active(), self.columns@);
        }
        let c: usize = self.views[last].offset_column + self.views[last].curser_column;
        self.columns[c].toggle_expand(&self.config);
        self.refresh();
    }

    /// The engine after the index column of the active view of `before` was
    /// shown or hidden: the layout is computed for it, and the view is drawn
    /// again.
    pub open spec fn index_toggled(&self, before: &Model) -> bool {
        &&& *self == (Model { layout: self.layout, views: self.views, ..*before })
        &&& self.same_parents(before)
        &&& self.layout == Layout::layout_for(
            before.width,
            before.height,
            !before.active().show_index,
            before.active().index.width,
        )
        &&& self.active().refreshed_from(
            &(TableView { show_index: !before.active().show_index, ..before.active() }),
            before.columns@,
            self.layout,
        )
    }

    /// Shows or hides the index column of the active view.
    pub fn toggle_index(&mut self)
        requires
            old(self).wf(),
        ensures
            final(self).wf(),
            final(self).index_toggled(old(self)),
    {
        let last: usize = self.views.len() - 1;
        let shown: bool = self.views[last].show_index;
        self.views[last].show_index = !shown;
        self.refresh();
    }

    /// The engine after the active view of `before` was sorted by the
    /// selected column: its rows are the same rows in an order that the column
    /// accepts, its matches are dropped, and it is drawn again.
    pub open spec fn sorted_from(&self, before: &Model, descending: bool) -> bool {
        if before.columns.len() == 0 {
            *self == *before
        } else {
            &&& self.same_but_active(before)
            &&& sorted_by(
                before.columns[before.selected_column()],
                descending,
                before.active().rows@,
                self.active().rows@,
            )
            &&& self.active().search_results@ == Seq::<(usize, usize)>::empty()
            &&& self.active().refreshed_from(
                &before.active().with_rows(self.active().rows).with_matches(
                    self.active().search_results,
                    0,
                ),
                before.columns@,
                before.layout,
            )
        }
    }

    /// Sorts the active view by the selected column.
    pub fn sort_selected(&mut self, descending: bool)
        requires
            old(self).wf(),
            old(self).mode == Mode::Table,
        ensures
            final(self).wf(),
            final(self).sorted_from(old(self), descending),
    {
        let last: usize = self.views.len() - 1;
        proof {
            lemma_selection_in_range(self.active(), self.columns@);
        }
        if self.columns.len() == 0 {
            return;
        }
        let c: usize = self.views[last].offset_column + self.views[last].curser_column;
        self.views[last].sort(c, descending, &self.columns, &self.layout);
    }

    /// The engine after a step of the match cursor of `before`: the cursor
    /// moves around the ends of the list of matches, and the match under it is
    /// selected; without matches nothing changes.
    pub open spec fn search_moved(&self, before: &Model, step: SearchStep) -> bool {
        if before.active().search_results.len() == 0 {
            *self == *before
        } else {
            let idx = stepped(
                before.active().search_idx as int,
                before.active().search_results.len() as int,
                step,
            );
            let hit = before.active().search_results[idx];
            &&& self.same_but_active(before)
            &&& self.active().search_idx == idx
            &&& self.selected_row() == hit.0
            &&& self.selected_column() == hit.1
            &&& self.active().refreshed_from(
                &before.active().with_matches(before.active().search_results, idx as usize).selecting(
                    hit.0,
                    hit.1,
                ),
                before.columns@,
                before.layout,
            )
        }
    }

    /// Steps to the next or the previous match of the last search and selects
    /// it.
    pub fn search_move(&mut self, step: SearchStep)
        requires
            old(self).wf(),
            old(self).mode == Mode::Table,
        ensures
            final(self).wf(),
            final(self).search_moved(old(self), step),
    {
        let last: usize = self.views.len() - 1;
        if self.views[last].search_results.len() == 0 {
            return;
        }
        self.views[last].search_step(step, &self.columns, &self.layout);
    }

    /// The engine after the selected cell of `before` was copied: its text
    /// waits for the clipboard.
    pub open spec fn cell_copied(&self, before: &Model) -> bool {
        &&& *self == (Model { clipboard: self.clipboard, ..*before })
        &&& if before.columns.len() > 0 && before.active().rows.len() > 0 {
            self.clipboard matches Some(text) && text@
                == before.columns[before.selected_column()].data[before.active().rows[before.selected_row()] as int]@
        } else {
            self.clipboard == before.clipboard
        }
    }

    /// Puts the text of the selected cell up for the clipboard; nothing where
    /// the view has no cell.
    pub fn copy_cell(&mut self)
        requires
            old(self).wf(),
        ensures
            final(self).wf(),
            final(self).cell_copied(old(self)),
    {
        let last: usize = self.views.len() - 1;
        proof {
            lemma_selection_in_range(self.active(), self.columns@);
        }
        let view: &TableView = &self.views[last];
        if self.columns.len() > 0 && view.rows.len() > 0 {
            let c: usize = view.offset_column + view.curser_column;
            let row: usize = view.rows[view.offset_row + view.curser_row];
            let column: &Column = &self.columns[c];
            self.clipboard = Some(column.data[row].clone());
        }
    }

    /// Collects the cells of dataset row `row`.
    pub fn collect_row(&self, row: usize) -> (fields: Vec<String>)
        requires
            self.stack_wf(),
            row < crate::column::row_count(self.columns@),
        ensures
            fields.len() == self.columns.len(),
            forall|c: int| 0 <= c < fields.len() ==> (#[trigger] fields[c])@ == self.columns[c].data[row as int]@,
    {
        let mut fields: Vec<String> = Vec::new();
        let mut c: usize = 0;
        while c < self.columns.len()
            invariant
                c <= self.columns.len(),
                self.stack_wf(),
                row < crate::column::row_count(self.columns@),
                fields.len() == c,
                forall|k: int| 0 <= k < c ==> (#[trigger] fields[k])@ == self.columns[k].data[row as int]@,
            decreases self.columns.len() - c,
        {
            let column: &Column = &self.columns[c];
            fields.push(column.data[row].clone());
            c = c + 1;
        }
        fields
    }

    /// The engine after the selected row of `before` was copied: the line
    /// of its quoted fields waits for the clipboard.
    pub open spec fn row_copied(&self, before: &Model) -> bool {
        &&& *self == (Model { clipboard: self.clipboard, ..*before })
        &&& if before.active().rows.len() > 0 {
            self.clipboard matches Some(text) && exists|fields: Seq<String>|
                {
                    &&& #[trigger] csv_row(fields) == text@
                    &&& fields.len() == before.columns.len()
                    &&& forall|c: int|
                        0 <= c < fields.len() ==> (#[trigger] fields[c])@
                            == before.columns[c].data[before.active().rows[before.selected_row()] as int]@
                }
        } else {
            self.clipboard == before.clipboard
        }
    }

    /// Puts the selected row up for the clipboard, as one line of quoted
    /// fields with commas between them; nothing where the view has no row.
    pub fn copy_row(&mut self)
        requires
            old(self).wf(),
        ensures
            final(self).wf(),
            final(self).row_copied(old(self)),
    {
        let last: usize = self.views.len() - 1;
        let view: &TableView = &self.views[last];
        if view.rows.len() > 0 {
            let row: usize = view.rows[view.offset_row + view.curser_row];
            let fields: Vec<String> = self.collect_row(row);
            let text: String = quote_row(&fields);
            self.clipboard = Some(text);
        }
    }

    /// Computes the layout from the size of the terminal and the index
    /// column of the active view.
    pub fn relayout(&mut self)
        requires
            old(self).views.len() > 0,
        ensures
            *final(self) == (Model { layout: final(self).layout, ..*old(self) }),
            final(self).layout == Layout::layout_for(
                old(self).width,
                old(self).height,
                old(self).active().show_index,
                old(self).active().index.width,
            ),
    {
        let last: usize = self.views.len() - 1;
        self.layout = Layout::compute(
            self.width,
            self.height,
            self.views[last].show_index,
            self.views[last].index.width,
        );
    }

    /// The engine shows the record of the row that was selected in `before`:
    /// the index column of the active view is hidden, the layout is computed
    /// anew, and the record starts at its first line.
    pub open spec fn record_opened(&self, before: &Model) -> bool {
        if before.active().rows.len() == 0 {
            *self == *before
        } else {
            &&& *self == (Model {
                mode: Mode::Record,
                record: self.record,
                layout: self.layout,
                views: self.views,
                ..*before
            })
            &&& self.same_parents(before)
            &&& self.layout == Layout::layout_for(
                before.width,
                before.height,
                false,
                before.active().index.width,
            )
            &&& self.active().refreshed_from(
                &(TableView { show_index: false, ..before.active() }),
                before.columns@,
                self.layout,
            )
            &&& self.record matches Some(r) && r.record_idx == before.selected_row() && r.scroll == (Scroll {
                offset: 0,
                curser: 0,
                len: before.columns.len(),
                height: self.layout.table_height,
            })
        }
    }

    /// Opens the record of the selected row; nothing where the view has no
    /// row.
    pub fn open_record(&mut self)
        requires
            old(self).wf(),
            old(self).mode == Mode::Table,
        ensures
            final(self).wf(),
            final(self).record_opened(old(self)),
    {
        let last: usize = self.views.len() - 1;
        if self.views[last].rows.len() == 0 {
            return;
        }
        let idx: usize = self.views[last].offset_row + self.views[last].curser_row;
        self.views[last].show_index = false;
        self.refresh();
        let record: Option<RecordView> = RecordView::new(
            idx,
            &self.views[last].rows,
            &self.columns,
            &self.config,
            self.layout.table_height,
        );
        self.record = record;
        self.mode = Mode::Record;
    }

    /// The engine shows the active view of `before` again, drawn under a
    /// layout computed anew.
    pub open spec fn table_restored(&self, before: &Model) -> bool {
        &&& *self == (Model { mode: Mode::Table, layout: self.layout, views: self.views, ..*before })
        &&& self.same_parents(before)
        &&& self.layout == Layout::layout_for(
            before.width,
            before.height,
            before.active().show_index,
            before.active().index.width,
        )
        &&& self.active().refreshed_from(&before.active(), before.columns@, self.layout)
    }

    /// Leaves the record or the histogram for the table.
    pub fn return_to_table(&mut self)
        requires
            old(self).wf(),
        ensures
            final(self).wf(),
            final(self).table_restored(old(self)),
    {
        self.mode = Mode::Table;
        self.refresh();
    }

    /// The record of `before` after `message`: the arrow keys up and down and
    /// the page keys move the window over the columns, the arrow keys right
    /// and left step to the next and the previous row of the view.
    pub open spec fn record_stepped(&self, before: &Model, message: Message) -> bool {
        let was = before.record->0;
        let now = self.record->0;
        let page = page_of(was.scroll.height);
        &&& *self == (Model { record: self.record, ..*before })
        &&& self.record is Some
        &&& now.scroll == match message {
            Message::MoveDown => was.scroll.moved_down(1),
            Message::MoveUp => was.scroll.moved_up(1),
            Message::PageDown => was.scroll.moved_down(page),
            Message::PageUp => was.scroll.moved_up(page),
            _ => was.scroll,
        }
        &&& now.record_idx == match message {
            Message::MoveRight => if was.record_idx + 1 < before.active().rows.len() {
                (was.record_idx + 1) as usize
            } else {
                was.record_idx
            },
            Message::MoveLeft => if was.record_idx > 0 {
                (was.record_idx - 1) as usize
            } else {
                0
            },
            _ => was.record_idx,
        }
    }

    /// Applies a message that moves inside the record inspector.
    pub fn step_record(&mut self, message: Message)
        requires
            old(self).wf(),
            old(self).mode == Mode::Record,
            message is MoveDown || message is MoveUp || message is PageDown || message is PageUp
                || message is MoveRight || message is MoveLeft,
        ensures
            final(self).wf(),
            final(self).record_stepped(old(self), message),
    {
        let last: usize = self.views.len() - 1;
        let mut record: RecordView = self.record.take().unwrap();
        let page: usize = if record.scroll.height > 0 {
            record.scroll.height
        } else {
            1
        };
        let rows: &Vec<usize> = &self.views[last].rows;
        match message {
            Message::MoveDown => record.move_down(1, rows, &self.columns, &self.config),
            Message::MoveUp => record.move_up(1, rows, &self.columns, &self.config),
            Message::PageDown => record.move_down(page, rows, &self.columns, &self.config),
            Message::PageUp => record.move_up(page, rows, &self.columns, &self.config),
            Message::MoveRight => record.next_record(rows, &self.columns, &self.config),
            _ => record.previous_record(rows, &self.columns, &self.config),
        }
        self.record = Some(record);
    }

    /// The engine shows the histogram of the column that was selected in
    /// `before`: the active view holds the histogram, its index column is
    /// hidden, the layout is computed anew, and the histogram starts at its
    /// first entry.
    pub open spec fn histogram_opened(&self, before: &Model) -> bool {
        if before.columns.len() == 0 {
            *self == *before
        } else {
            let c = before.selected_column() as usize;
            &&& *self == (Model {
                mode: Mode::Histogram,
                histogram: self.histogram,
                layout: self.layout,
                views: self.views,
                ..*before
            })
            &&& self.same_parents(before)
            &&& self.layout == Layout::layout_for(
                before.width,
                before.height,
                false,
                before.active().index.width,
            )
            &&& self.active().column_histograms@.contains_key(c)
            &&& self.active().column_histograms@[c].describes(
                before.columns[c as int].data@,
                before.active().rows@,
            )
            &&& (before.active().column_histograms@.contains_key(c)
                ==> self.active().column_histograms@[c] == before.active().column_histograms@[c])
            &&& self.active().refreshed_from(
                &(TableView { show_index: false, ..before.active() }).with_histograms(
                    self.active().column_histograms,
                ),
                before.columns@,
                self.layout,
            )
            &&& self.histogram matches Some(h) && h.column_idx == c && h.scroll == (Scroll {
                offset: 0,
                curser: 0,
                len: self.active().column_histograms@[c].values.len(),
                height: self.layout.table_height,
            })
        }
    }

    /// Opens the histogram of the selected column; nothing where the dataset
    /// has no column.
    pub fn open_histogram(&mut self)
        requires
            old(self).wf(),
            old(self).mode == Mode::Table,
        ensures
            final(self).wf(),
            final(self).histogram_opened(old(self)),
    {
        let last: usize = self.views.len() - 1;
        proof {
            lemma_selection_in_range(self.active(), self.columns@);
        }
        if self.columns.len() == 0 {
            return;
        }
        let c: usize = self.views[last].offset_column + self.views[last].curser_column;
        self.views[last].ensure_histogram(c, &self.columns);
        self.views[last].show_index = false;
        self.refresh();
        let view: &TableView = &self.views[last];
        let total: usize = view.rows.len();
        let counted: &Histogram = view.histogram(c).unwrap();
        proof {
            lemma_histogram_bounds(
                counted.counts@,
                counted.values@,
                self.columns[c as int].data@,
                view.rows@,
            );
        }
        let inspector: HistogramView = HistogramView::new(c, counted, total, self.layout.table_height);
        self.histogram = Some(inspector);
        self.mode = Mode::Histogram;
    }

    /// The histogram of `before` after `message`: the arrow keys up and down
    /// and the page keys move the window over the entries.
    pub open spec fn histogram_stepped(&self, before: &Model, message: Message) -> bool {
        let was = before.histogram->0;
        let now = self.histogram->0;
        let page = page_of(was.scroll.height);
        &&& *self == (Model { histogram: self.histogram, ..*before })
        &&& self.histogram is Some
        &&& now.column_idx == was.column_idx
        &&& now.scroll == match message {
            Message::MoveDown => was.scroll.moved_down(1),
            Message::MoveUp => was.scroll.moved_up(1),
            Message::PageDown => was.scroll.moved_down(page),
            Message::PageUp => was.scroll.moved_up(page),
            _ => was.scroll,
        }
    }

    /// Applies a message that moves inside the histogram inspector.
    pub fn step_histogram(&mut self, message: Message)
        requires
            old(self).wf(),
            old(self).mode == Mode::Histogram,
            message is MoveDown || message is MoveUp || message is PageDown || message is PageUp,
        ensures
            final(self).wf(),
            final(self).histogram_stepped(old(self), message),
    {
        let last: usize = self.views.len() - 1;
        let mut inspector: HistogramView = self.histogram.take().unwrap();
        let page: usize = if inspector.scroll.height > 0 {
            inspector.scroll.height
        } else {
            1
        };
        let view: &TableView = &self.views[last];
        let total: usize = view.rows.len();
        let counted: &Histogram = view.histogram(inspector.column_idx).unwrap();
        proof {
            lemma_histogram_bounds(
                counted.counts@,
                counted.values@,
                self.columns[inspector.column_idx as int].data@,
                view.rows@,
            );
        }
        match message {
            Message::MoveDown => inspector.move_down(1, counted, total),
            Message::MoveUp => inspector.move_up(1, counted, total),
            Message::PageDown => inspector.move_down(page, counted, total),
            _ => inspector.move_up(page, counted, total),
        }
        self.histogram = Some(inspector);
    }

    /// The engine shows a view derived from the active view of `before`: the
    /// stack of `before` with one more view on it, which holds the view rows
    /// `matches` of the view below, is named `F[..]` around that view's name,
    /// has its first cell selected, and holds no match and no histogram yet.
    pub open spec fn derived_from(&self, before: &Model, matches: Seq<usize>) -> bool {
        &&& *self == (Model { mode: Mode::Table, layout: self.layout, views: self.views, ..*before })
        &&& self.views.len() == before.views.len() + 1
        &&& forall|i: int| 0 <= i < before.views.len() ==> #[trigger] self.views[i] == before.views[i]
        &&& self.active().rows@ == resolved(before.active().rows@, matches)
        &&& self.active().name@ == filtered_name(before.active().name@)
        &&& self.active().show_index == before.active().show_index
        &&& self.active().offset_row == 0
        &&& self.active().offset_column == 0
        &&& self.active().curser_row == 0
        &&& self.active().curser_column == 0
        &&& self.active().search_results@ == Seq::<(usize, usize)>::empty()
        &&& self.active().search_idx == 0
        &&& self.active().column_histograms@ == Map::<usize, Histogram>::empty()
    }

    /// Puts a view on the stack that holds the view rows `matches` of the
    /// active view, and shows it. A match that is no row of the active view
    /// is an indexing error, and nothing changes.
    pub fn push_filtered(&mut self, matches: &Vec<usize>) -> (pushed: Result<(), TVError>)
        requires
            old(self).wf(),
        ensures
            final(self).wf(),
            pushed is Ok <==> forall|k: int|
                0 <= k < matches.len() ==> #[trigger] matches[k] < old(self).active().rows.len(),
            pushed matches Err(e) ==> e is DataIndexingError && *final(self) == *old(self),
            pushed is Ok ==> final(self).derived_from(old(self), matches@),
    {
        let last: usize = self.views.len() - 1;
        match self.views[last].filtered(matches, &self.columns, &self.layout) {
            Ok(child) => {
                self.views.push(child);
                self.mode = Mode::Table;
                self.refresh();
                Ok(())
            },
            Err(e) => Err(e),
        }
    }

    /// The engine after the selected entry of the histogram of `before` was
    /// taken as a filter: the table shows a view derived from the active one,
    /// with the rows whose cell in the counted column is the selected value.
    /// A histogram without entries only gives way to the table.
    pub open spec fn histogram_applied(&self, before: &Model) -> bool {
        let inspector = before.histogram->0;
        let counted = before.active().column_histograms@[inspector.column_idx];
        if counted.values.len() == 0 {
            self.table_restored(before)
        } else {
            let value = counted.values[inspector.scroll.offset + inspector.scroll.curser]@;
            self.derived_from(
                before,
                picked(
                    before.active().rows.len() as int,
                    cell_is(before.columns@, inspector.column_idx as int, before.active().rows@, value),
                ),
            )
        }
    }

    /// Filters the active view down to the rows that hold the selected value
    /// of the histogram, and returns to the table.
    pub fn apply_histogram(&mut self)
        requires
            old(self).wf(),
            old(self).mode == Mode::Histogram,
        ensures
            final(self).wf(),
            final(self).histogram_applied(old(self)),
    {
        let last: usize = self.views.len() - 1;
        let view: &TableView = &self.views[last];
        let inspector: &HistogramView = self.histogram.as_ref().unwrap();
        let column: usize = inspector.column_idx;
        let counted: &Histogram = view.histogram(column).unwrap();
        if counted.values.len() == 0 {
            self.return_to_table();
            return;
        }
        let at: usize = inspector.scroll.selected();
        let value: String = counted.values[at].clone();
        let matches: Vec<usize> = rows_with_value(&view.rows, &self.columns, column, &value);
        proof {
            lemma_picked_exact(
                view.rows.len() as int,
                cell_is(self.columns@, column as int, view.rows@, value@),
            );
        }
        let pushed = self.push_filtered(&matches);
        assert(pushed is Ok);
    }

    /// Filters the active view down to the rows whose cell in the selected
    /// column contains `pattern`.
    pub fn filter_column(&mut self, pattern: &str)
        requires
            old(self).wf(),
        ensures
            final(self).wf(),
            old(self).columns.len() > 0 ==> final(self).derived_from(
                old(self),
                picked(
                    old(self).active().rows.len() as int,
                    cell_contains(
                        old(self).columns@,
                        old(self).selected_column(),
                        old(self).active().rows@,
                        pattern@,
                    ),
                ),
            ),
            old(self).columns.len() == 0 ==> final(self).derived_from(old(self), Seq::empty()),
    {
        let last: usize = self.views.len() - 1;
        proof {
            lemma_selection_in_range(self.active(), self.columns@);
        }
        let view: &TableView = &self.views[last];
        assert(view.offset_column + view.curser_column <= self.columns.len());
        let c: usize = view.offset_column + view.curser_column;
        let matches: Vec<usize> = matching_rows(&view.rows, &self.columns, c, pattern);
        proof {
            if self.columns.len() > 0 {
                lemma_picked_exact(
                    view.rows.len() as int,
                    cell_contains(self.columns@, c as int, view.rows@, pattern@),
                );
            }
        }
        let pushed = self.push_filtered(&matches);
        assert(pushed is Ok);
    }

    /// The engine after the active view of `before` was left: where it stood
    /// on another view, that view is shown again, drawn under a layout
    /// computed anew, with its rows, its name and its selection as they were;
    /// the root view stays.
    pub open spec fn view_closed(&self, before: &Model) -> bool {
        if before.views.len() <= 1 {
            *self == *before
        } else {
            let parent = before.views[before.views.len() - 2];
            &&& *self == (Model { layout: self.layout, views: self.views, ..*before })
            &&& self.views.len() == before.views.len() - 1
            &&& forall|i: int| 0 <= i < self.views.len() - 1 ==> #[trigger] self.views[i] == before.views[i]
            &&& self.layout == Layout::layout_for(
                before.width,
                before.height,
                parent.show_index,
                parent.index.width,
            )
            &&& self.active().refreshed_from(&parent, before.columns@, self.layout)
        }
    }

    /// Leaves the active view for the one it was derived from; the root view
    /// cannot be left.
    pub fn close_view(&mut self)
        requires
            old(self).wf(),
            old(self).mode == Mode::Table,
        ensures
            final(self).wf(),
            final(self).view_closed(old(self)),
    {
        if self.views.len() <= 1 {
            return;
        }
        self.views.pop();
        self.refresh();
    }

    /// The engine after a search of the active view of `before` for
    /// `pattern`, in every column or in the column `scope` only: the active
    /// view holds the matches; where there are any, the match cursor stands on
    /// the first match in the row that was selected or below it (on the first
    /// match where there is none) and that match is selected; where there is
    /// no match the selection stays.
    pub open spec fn searched(&self, before: &Model, pattern: Seq<char>, scope: Option<usize>) -> bool {
        let results = self.active().search_results;
        &&& *self == (Model { views: self.views, ..*before })
        &&& self.same_parents(before)
        &&& is_search_result(results@, before.columns@, before.active().rows@, pattern, scope)
        &&& if results.len() == 0 {
            self.active() == before.active().with_matches(results, 0)
        } else {
            let idx = first_from(results@, before.selected_row(), 0);
            let hit = results[idx];
            &&& self.active().search_idx == idx
            &&& self.selected_row() == hit.0
            &&& self.selected_column() == hit.1
            &&& self.active().refreshed_from(
                &before.active().with_matches(results, idx as usize).selecting(hit.0, hit.1),
                before.columns@,
                before.layout,
            )
        }
    }

    /// Searches the active view for `pattern` and selects the first match
    /// from the selected row on.
    pub fn search_for(&mut self, pattern: &str, scope: Option<usize>)
        requires
            old(self).wf(),
            old(self).mode == Mode::Table,
        ensures
            final(self).wf(),
            final(self).searched(old(self), pattern@, scope),
    {
        let last: usize = self.views.len() - 1;
        let count: usize = self.views[last].search(pattern, scope, &self.columns);
        if count > 0 {
            self.views[last].search_step(SearchStep::Current, &self.columns, &self.layout);
        }
    }

    /// The engine after the matches of `pattern` were looked up in the active
    /// view of `before`, in every column or in the column `scope` only: the
    /// active view holds the matches, and the match cursor stands on the first
    /// match in the selected row or below it, on the first match where there
    /// is none. Nothing else has changed; the selection stays.
    pub open spec fn matched(&self, before: &Model, pattern: Seq<char>, scope: Option<usize>) -> bool {
        let results = self.active().search_results;
        &&& *self == (Model { views: self.views, ..*before })
        &&& self.same_parents(before)
        &&& is_search_result(results@, before.columns@, before.active().rows@, pattern, scope)
        &&& self.active() == before.active().with_matches(
            results,
            first_from(results@, before.selected_row(), 0) as usize,
        )
    }

    /// Looks up the matches of `pattern` in the active view and sets the match
    /// cursor; the selection stays where it is.
    pub fn find(&mut self, pattern: &str, scope: Option<usize>)
        requires
            old(self).wf(),
        ensures
            final(self).wf(),
            final(self).matched(old(self), pattern@, scope),
    {
        let last: usize = self.views.len() - 1;
        proof {
            lemma_selection_in_range(self.active(), self.columns@);
        }
        self.views[last].search(pattern, scope, &self.columns);
    }

    /// The engine after a search was finished on the command line of `typed`:
    /// the matches were looked up from the row that was selected, the table was
    /// drawn again, and the match under the match cursor, if there is one, was
    /// selected.
    pub open spec fn search_finished(
        &self,
        typed: &Model,
        pattern: Seq<char>,
        scope: Option<usize>,
    ) -> bool {
        exists|found: Model, table: Model|
            {
                &&& #[trigger] found.matched(typed, pattern, scope)
                &&& #[trigger] table.table_restored(&found)
                &&& table.wf()
                &&& self.search_moved(&table, SearchStep::Current)
            }
    }

    /// The columns that a search of kind `kind` looks at: all of them, or the
    /// selected one.
    pub open spec fn search_scope(&self, kind: CommandKind) -> Option<usize> {
        if kind == CommandKind::SearchColumn && self.columns.len() > 0 {
            Some(self.selected_column() as usize)
        } else {
            None
        }
    }

    /// Shows the help popup over the current mode.
    pub fn open_popup(&mut self)
        requires
            old(self).wf(),
            old(self).mode != Mode::Popup,
            old(self).mode != Mode::CommandInput,
        ensures
            final(self).wf(),
            *final(self) == (Model { mode: Mode::Popup, previous_mode: old(self).mode, ..*old(self) }),
    {
        self.previous_mode = self.mode;
        self.mode = Mode::Popup;
    }

    /// The engine after the inspector of the mode of `before` was drawn
    /// under a layout computed anew: the table view, the record or the
    /// histogram.
    pub open spec fn redrawn(&self, before: &Model) -> bool {
        match before.mode {
            Mode::Table => self.table_restored(before),
            Mode::Record => {
                &&& *self == (Model { layout: self.layout, record: self.record, ..*before })
                &&& self.layout == Layout::layout_for(
                    before.width,
                    before.height,
                    before.active().show_index,
                    before.active().index.width,
                )
                &&& self.record matches Some(r) && r.record_idx == before.record->0.record_idx
                    && r.scroll == before.record->0.scroll.resized(self.layout.table_height)
            },
            Mode::Histogram => {
                &&& *self == (Model { layout: self.layout, histogram: self.histogram, ..*before })
                &&& self.layout == Layout::layout_for(
                    before.width,
                    before.height,
                    before.active().show_index,
                    before.active().index.width,
                )
                &&& self.histogram matches Some(h) && h.column_idx == before.histogram->0.column_idx
                    && h.scroll == before.histogram->0.scroll.resized(self.layout.table_height)
            },
            _ => {
                &&& *self == (Model { layout: self.layout, ..*before })
                &&& self.layout == Layout::layout_for(
                    before.width,
                    before.height,
                    before.active().show_index,
                    before.active().index.width,
                )
            },
        }
    }

    /// Computes the layout anew and draws the inspector of the current mode
    /// again; under the popup and the command line only the layout changes.
    pub fn redraw(&mut self)
        requires
            old(self).wf(),
        ensures
            final(self).wf(),
            final(self).redrawn(old(self)),
    {
        let last: usize = self.views.len() - 1;
        match self.mode {
            Mode::Table => {
                self.return_to_table();
            },
            Mode::Record => {
                self.relayout();
                let mut record: RecordView = self.record.take().unwrap();
                record.resize(
                    self.layout.table_height,
                    &self.views[last].rows,
                    &self.columns,
                    &self.config,
                );
                self.record = Some(record);
            },
            Mode::Histogram => {
                self.relayout();
                let mut inspector: HistogramView = self.histogram.take().unwrap();
                let view: &TableView = &self.views[last];
                let total: usize = view.rows.len();
                let counted: &Histogram = view.histogram(inspector.column_idx).unwrap();
                proof {
                    lemma_histogram_bounds(
                        counted.counts@,
                        counted.values@,
                        self.columns[inspector.column_idx as int].data@,
                        view.rows@,
                    );
                }
                inspector.resize(self.layout.table_height, counted, total);
                self.histogram = Some(inspector);
            },
            _ => {
                self.relayout();
            },
        }
    }

    /// Leaves the popup for the mode that lies under it, and draws that mode
    /// again.
    pub fn close_popup(&mut self)
        requires
            old(self).wf(),
            old(self).mode == Mode::Popup,
        ensures
            final(self).wf(),
            final(self).redrawn(&(Model { mode: old(self).previous_mode, ..*old(self) })),
    {
        match self.previous_mode {
            Mode::Table => {
                self.return_to_table();
            },
            _ => {
                self.mode = self.previous_mode;
                self.redraw();
            },
        }
    }

    /// Takes the new size of the terminal and draws the current mode again.
    pub fn resize(&mut self, width: usize, height: usize)
        requires
            old(self).wf(),
        ensures
            final(self).wf(),
            final(self).redrawn(&(Model { width, height, ..*old(self) })),
    {
        self.width = width;
        self.height = height;
        self.redraw();
    }

    /// Opens the command line for a command of kind `kind`, with an empty
    /// line.
    pub fn start_command(&mut self, kind: CommandKind)
        requires
            old(self).wf(),
            old(self).mode == Mode::Table,
        ensures
            final(self).wf(),
            *final(self) == (Model {
                mode: Mode::CommandInput,
                previous_mode: Mode::Table,
                command: kind,
                input: final(self).input,
                ..*old(self)
            }),
            final(self).input@ == old(self).input@.cleared(),
    {
        self.previous_mode = Mode::Table;
        self.mode = Mode::CommandInput;
        self.command = kind;
        self.input.clear();
    }

    /// The command of kind `kind` with the text `text` was carried out on
    /// the table of `before`: a search over the whole table or the selected
    /// column, or a filter on the selected column; a raw command changes
    /// nothing.
    pub open spec fn dispatched(&self, before: &Model, kind: CommandKind, text: Seq<char>) -> bool {
        match kind {
            CommandKind::Raw => *self == *before,
            CommandKind::Search => self.searched(before, text, None),
            CommandKind::SearchColumn => self.searched(
                before,
                text,
                if before.columns.len() > 0 {
                    Some(before.selected_column() as usize)
                } else {
                    None
                },
            ),
            CommandKind::FilterColumn => if before.columns.len() > 0 {
                self.derived_from(
                    before,
                    picked(
                        before.active().rows.len() as int,
                        cell_contains(
                            before.columns@,
                            before.selected_column(),
                            before.active().rows@,
                            text,
                        ),
                    ),
                )
            } else {
                self.derived_from(before, Seq::empty())
            },
        }
    }

    /// Carries out a command of the command line on the table.
    pub fn dispatch(&mut self, kind: CommandKind, text: &str)
        requires
            old(self).wf(),
            old(self).mode == Mode::Table,
        ensures
            final(self).wf(),
            final(self).mode == Mode::Table,
            final(self).dispatched(old(self), kind, text@),
    {
        let last: usize = self.views.len() - 1;
        proof {
            lemma_selection_in_range(self.active(), self.columns@);
        }
        match kind {
            CommandKind::Raw => {},
            CommandKind::Search => {
                self.search_for(text, None);
            },
            CommandKind::SearchColumn => {
                let scope: Option<usize> = if self.columns.len() > 0 {
                    Some(self.views[last].offset_column + self.views[last].curser_column)
                } else {
                    None
                };
                self.search_for(text, scope);
            },
            CommandKind::FilterColumn => {
                self.filter_column(text);
            },
        }
    }

    /// The engine after the key press `key` on the command line of `before`.
    /// A character that the cursor has no room for is dropped. While the line
    /// is not finished only the line changes. A finished line gives way to the
    /// table, drawn again; unless it was canceled, its command is carried out.
    /// A search looks up its matches before the table is drawn again, from the
    /// row that was selected when the line was finished, and selects its match
    /// afterwards; a filter is applied to the table as it is drawn again.
    pub open spec fn command_typed(&self, before: &Model, key: KeyPress) -> bool {
        if key.code is Char && before.input@.curser_pos == usize::MAX {
            *self == *before
        } else {
            let line = before.input@.after(key);
            &&& self.input@ == line
            &&& if !line.finished {
                *self == (Model { input: self.input, ..*before })
            } else {
                let typed = Model { input: self.input, ..*before };
                if !line.canceled && (before.command == CommandKind::Search || before.command
                    == CommandKind::SearchColumn) {
                    self.search_finished(&typed, line.input, typed.search_scope(before.command))
                } else {
                    exists|table: Model|
                        {
                            &&& #[trigger] table.table_restored(&typed)
                            &&& table.wf()
                            &&& if line.canceled {
                                *self == table
                            } else {
                                self.dispatched(&table, before.command, line.input)
                            }
                        }
                }
            }
        }
    }

    /// Applies a key press to the command line.
    pub fn command_key(&mut self, key: KeyPress)
        requires
            old(self).wf(),
            old(self).mode == Mode::CommandInput,
        ensures
            final(self).wf(),
            final(self).command_typed(old(self), key),
            final(self).mode == old(self).next_mode(Message::RawKey(key)),
    {
        let full: bool = self.input.cursor() == usize::MAX;
        let types: bool = match key.code {
            Key::Char(_) => true,
            _ => false,
        };
        if types && full {
            return;
        }
        let result = self.input.read(key);
        if !result.finished {
            return;
        }
        let kind: CommandKind = self.command;
        let ghost typed = *self;
        let searching: bool = match kind {
            CommandKind::Search => !result.canceled,
            CommandKind::SearchColumn => !result.canceled,
            _ => false,
        };
        if searching {
            let last: usize = self.views.len() - 1;
            proof {
                lemma_selection_in_range(self.active(), self.columns@);
            }
            let scope: Option<usize> = match kind {
                CommandKind::SearchColumn => if self.columns.len() > 0 {
                    Some(self.views[last].offset_column + self.views[last].curser_column)
                } else {
                    None
                },
                _ => None,
            };
            self.find(result.input.as_str(), scope);
            let ghost found = *self;
            self.return_to_table();
            let ghost table = *self;
            self.search_move(SearchStep::Current);
            proof {
                assert(found.matched(&typed, result.input@, scope));
                assert(table.table_restored(&found));
            }
        } else {
            self.return_to_table();
            let ghost table = *self;
            if !result.canceled {
                self.dispatch(kind, result.input.as_str());
            }
            proof {
                assert(table.table_restored(&typed));
            }
        }
    }

    /// The mode after `message`, for an engine that has not ended. The table
    /// opens the record of a row, the histogram of a column and the command
    /// line; record and histogram give way to the table on Exit, the histogram
    /// on Enter too; Help opens the popup over table, record and histogram,
    /// and Exit leaves it for the mode under it; the command line gives way to
    /// the table when its line is finished.
    pub open spec fn next_mode(&self, message: Message) -> Mode {
        match (self.mode, message) {
            (_, Message::Quit) => self.mode,
            (Mode::Table, Message::Enter) => if self.active().rows.len() > 0 {
                Mode::Record
            } else {
                Mode::Table
            },
            (Mode::Table, Message::Histogram) => if self.columns.len() > 0 {
                Mode::Histogram
            } else {
                Mode::Table
            },
            (Mode::Table, Message::Command(_)) => Mode::CommandInput,
            (Mode::Table, Message::Help) => Mode::Popup,
            (Mode::Record, Message::Help) => Mode::Popup,
            (Mode::Histogram, Message::Help) => Mode::Popup,
            (Mode::Record, Message::Exit) => Mode::Table,
            (Mode::Histogram, Message::Exit) => Mode::Table,
            (Mode::Histogram, Message::Enter) => Mode::Table,
            (Mode::Popup, Message::Exit) => self.previous_mode,
            (Mode::CommandInput, Message::RawKey(key)) => if !(key.code is Char
                && self.input@.curser_pos == usize::MAX) && self.input@.after(key).finished {
                Mode::Table
            } else {
                Mode::CommandInput
            },
            _ => self.mode,
        }
    }

    /// What `message` does to an engine in table mode.
    pub open spec fn table_step(&self, before: &Model, message: Message) -> bool {
        match message {
            Message::Enter => self.record_opened(before),
            Message::Exit => self.view_closed(before),
            Message::Help => *self == (Model { mode: Mode::Popup, previous_mode: Mode::Table, ..*before }),
            Message::Histogram => self.histogram_opened(before),
            Message::Resize(width, height) => self.redrawn(&(Model { width, height, ..*before })),
            Message::ToggleIndex => self.index_toggled(before),
            Message::ToggleCollapse => self.restyled(before, true),
            Message::ToggleExpand => self.restyled(before, false),
            Message::SortAscending => self.sorted_from(before, false),
            Message::SortDescending => self.sorted_from(before, true),
            Message::Command(kind) => {
                &&& *self == (Model {
                    mode: Mode::CommandInput,
                    previous_mode: Mode::Table,
                    command: kind,
                    input: self.input,
                    ..*before
                })
                &&& self.input@ == before.input@.cleared()
            },
            Message::SearchNext => self.search_moved(before, SearchStep::Next),
            Message::SearchPrevious => self.search_moved(before, SearchStep::Previous),
            Message::CopyCell => self.cell_copied(before),
            Message::CopyRow => self.row_copied(before),
            Message::RawKey(_) => *self == *before,
            Message::Quit => *self == (Model { status: Status::EXITING, ..*before }),
            _ => {
                &&& self.same_but_active(before)
                &&& self.active().refreshed_from(
                    &navigated(before.active(), message, before.columns@),
                    before.columns@,
                    before.layout,
                )
            },
        }
    }

    /// What `message` does to an engine in record mode.
    pub open spec fn record_step(&self, before: &Model, message: Message) -> bool {
        match message {
            Message::Quit => *self == (Model { status: Status::EXITING, ..*before }),
            Message::Exit => self.table_restored(before),
            Message::Help => *self == (Model { mode: Mode::Popup, previous_mode: Mode::Record, ..*before }),
            Message::Resize(width, height) => self.redrawn(&(Model { width, height, ..*before })),
            Message::MoveDown | Message::MoveUp | Message::PageDown | Message::PageUp
            | Message::MoveRight | Message::MoveLeft => self.record_stepped(before, message),
            _ => *self == *before,
        }
    }

    /// What `message` does to an engine in histogram mode.
    pub open spec fn histogram_step(&self, before: &Model, message: Message) -> bool {
        match message {
            Message::Quit => *self == (Model { status: Status::EXITING, ..*before }),
            Message::Enter => self.histogram_applied(before),
            Message::Exit => self.table_restored(before),
            Message::Help => *self == (Model {
                mode: Mode::Popup,
                previous_mode: Mode::Histogram,
                ..*before
            }),
            Message::Resize(width, height) => self.redrawn(&(Model { width, height, ..*before })),
            Message::MoveDown | Message::MoveUp | Message::PageDown | Message::PageUp => self.histogram_stepped(
                before,
                message,
            ),
            _ => *self == *before,
        }
    }

    /// What `message` does to an engine that shows the popup.
    pub open spec fn popup_step(&self, before: &Model, message: Message) -> bool {
        match message {
            Message::Quit => *self == (Model { status: Status::EXITING, ..*before }),
            Message::Exit => self.redrawn(&(Model { mode: before.previous_mode, ..*before })),
            Message::Resize(width, height) => self.redrawn(&(Model { width, height, ..*before })),
            _ => *self == *before,
        }
    }

    /// What `message` does to an engine that shows the command line.
    pub open spec fn command_step(&self, before: &Model, message: Message) -> bool {
        match message {
            Message::Quit => *self == (Model { status: Status::EXITING, ..*before }),
            Message::RawKey(key) => self.command_typed(before, key),
            Message::Resize(width, height) => self.redrawn(&(Model { width, height, ..*before })),
            _ => *self == *before,
        }
    }

    /// What `message` does to the engine `before`, but for the count of
    /// messages: nothing once the engine has ended, else what the mode makes
    /// of it.
    pub open spec fn stepped_from(&self, before: &Model, message: Message) -> bool {
        if before.status == Status::EXITING {
            *self == *before
        } else {
            match before.mode {
                Mode::Table => self.table_step(before, message),
                Mode::Record => self.record_step(before, message),
                Mode::Histogram => self.histogram_step(before, message),
                Mode::Popup => self.popup_step(before, message),
                Mode::CommandInput => self.command_step(before, message),
            }
        }
    }

    /// The count of messages after one more.
    pub open spec fn counted(&self) -> Model {
        Model {
            last_update: if self.last_update == u64::MAX {
                0
            } else {
                (self.last_update + 1) as u64
            },
            ..*self
        }
    }

    /// Applies one message. Once the engine has ended nothing changes;
    /// before that the message is counted and handed to the current mode,
    /// and `Quit` ends the engine in every mode. No message fails.
    pub fn update(&mut self, message: Message) -> (done: Result<(), TVError>)
        requires
            old(self).wf(),
        ensures
            done is Ok,
            final(self).wf(),
            old(self).status == Status::EXITING ==> *final(self) == *old(self),
            old(self).status != Status::EXITING ==> final(self).stepped_from(
                &old(self).counted(),
                message,
            ),
            old(self).status != Status::EXITING ==> final(self).mode == old(self).next_mode(message),
            message is Quit ==> final(self).status == Status::EXITING,
    {
        match self.status {
            Status::EXITING => {
                return Ok(());
            },
            _ => {},
        }
        self.last_update = if self.last_update == u64::MAX {
            0
        } else {
            self.last_update + 1
        };
        if let Message::Quit = message {
            self.exit();
            return Ok(());
        }
        if let Message::Resize(width, height) = message {
            self.resize(width, height);
            return Ok(());
        }
        match self.mode {
            Mode::Table => self.update_table(message),
            Mode::Record => self.update_record(message),
            Mode::Histogram => self.update_histogram(message),
            Mode::Popup => {
                if let Message::Exit = message {
                    self.close_popup();
                }
            },
            Mode::CommandInput => {
                if let Message::RawKey(key) = message {
                    self.command_key(key);
                }
            },
        }
        Ok(())
    }

    /// Applies a message in table mode.
    pub fn update_table(&mut self, message: Message)
        requires
            old(self).wf(),
            old(self).mode == Mode::Table,
            !(message is Quit),
            !(message is Resize),
        ensures
            final(self).wf(),
            final(self).table_step(old(self), message),
            final(self).mode == old(self).next_mode(message),
    {
        match message {
            Message::Enter => self.open_record(),
            Message::Exit => self.close_view(),
            Message::Help => self.open_popup(),
            Message::Histogram => self.open_histogram(),
            Message::ToggleIndex => self.toggle_index(),
            Message::ToggleCollapse => self.toggle_collapse(),
            Message::ToggleExpand => self.toggle_expand(),
            Message::SortAscending => self.sort_selected(false),
            Message::SortDescending => self.sort_selected(true),
            Message::Command(kind) => self.start_command(kind),
            Message::SearchNext => self.search_move(SearchStep::Next),
            Message::SearchPrevious => self.search_move(SearchStep::Previous),
            Message::CopyCell => self.copy_cell(),
            Message::CopyRow => self.copy_row(),
            Message::RawKey(_) => {},
            Message::Quit => {},
            Message::Resize(_, _) => {},
            _ => self.navigate(message),
        }
    }

    /// Applies a message in record mode.
    pub fn update_record(&mut self, message: Message)
        requires
            old(self).wf(),
            old(self).mode == Mode::Record,
            !(message is Quit),
            !(message is Resize),
        ensures
            final(self).wf(),
            final(self).record_step(old(self), message),
            final(self).mode == old(self).next_mode(message),
    {
        match message {
            Message::Exit => self.return_to_table(),
            Message::Help => self.open_popup(),
            Message::MoveDown | Message::MoveUp | Message::PageDown | Message::PageUp
            | Message::MoveRight | Message::MoveLeft => self.step_record(message),
            _ => {},
        }
    }

    /// Applies a message in histogram mode.
    pub fn update_histogram(&mut self, message: Message)
        requires
            old(self).wf(),
            old(self).mode == Mode::Histogram,
            !(message is Quit),
            !(message is Resize),
        ensures
            final(self).wf(),
            final(self).histogram_step(old(self), message),
            final(self).mode == old(self).next_mode(message),
    {
        match message {
            Message::Enter => self.apply_histogram(),
            Message::Exit => self.return_to_table(),
            Message::Help => self.open_popup(),
            Message::MoveDown | Message::MoveUp | Message::PageDown | Message::PageUp => self.step_histogram(
                message,
            ),
            _ => {},
        }
    }
}

/// In every consistent engine whose active view has rows, in a window of some
/// height over a dataset with columns, the cursors lie inside the window and
/// the selection inside the view. Loading gives a consistent engine and every
/// message keeps it so.
pub proof fn lemma_engine_window_invariant(model: Model)
    requires
        model.wf(),
        model.active().height > 0,
        model.active().rows.len() > 0,
        model.columns.len() > 0,
    ensures
        model.active().curser_row < model.active().height,
        model.active().offset_row + model.active().curser_row < model.active().rows.len(),
        model.active().curser_column < model.active().visible_columns.len(),
        model.active().offset_column + model.active().curser_column < model.columns.len(),
{
    lemma_window_invariant(model.active(), model.columns@);
}

/// The collapse toggle followed by the expand toggle, pressed twice on one
/// column in normal status, leaves the column as it was: its status is normal
/// again and its width is the width it had, and no other column has changed.
pub proof fn lemma_collapse_expand_twice(
    start: Model,
    first: Model,
    second: Model,
    third: Model,
    last: Model,
    idx: int,
)
    requires
        0 <= idx < start.columns.len(),
        start.columns[idx].status == ColumnStatus::Normal,
        start.columns[idx].width == start.columns[idx].wanted_width(start.config),
        start.selected_column() == idx,
        first.restyled(&start, true),
        first.selected_column() == idx,
        second.restyled(&first, false),
        second.selected_column() == idx,
        third.restyled(&second, true),
        third.selected_column() == idx,
        last.restyled(&third, false),
    ensures
        last.columns.len() == start.columns.len(),
        last.columns[idx].status == ColumnStatus::Normal,
        last.columns[idx].width == start.columns[idx].width,
        last.columns[idx].name == start.columns[idx].name,
        last.columns[idx].data == start.columns[idx].data,
        forall|c: int|
            0 <= c < last.columns.len() && c != idx ==> #[trigger] last.columns[c] == start.columns[c],
{
    assert(second.columns[idx].status == ColumnStatus::Normal);
    assert forall|c: int| 0 <= c < last.columns.len() && c != idx implies #[trigger] last.columns[c]
        == start.columns[c] by {
        assert(first.columns[c] == start.columns[c]);
        assert(second.columns[c] == first.columns[c]);
        assert(third.columns[c] == second.columns[c]);
    }
}

/// A fresh search, finished on the command line: the active view holds the
/// matches of the text that was typed, in ascending order of row and column;
/// where there are any, the match cursor stands on the first match in the row
/// that was selected or below it, on the first match where there is none, and
/// that match is selected.
pub proof fn lemma_fresh_search(before: Model, after: Model, key: KeyPress)
    requires
        before.wf(),
        before.mode == Mode::CommandInput,
        before.command == CommandKind::Search || before.command == CommandKind::SearchColumn,
        !(key.code is Char && before.input@.curser_pos == usize::MAX),
        before.input@.after(key).finished,
        !before.input@.after(key).canceled,
        after.command_typed(&before, key),
    ensures
        ({
            let results = after.active().search_results@;
            let idx = first_from(results, before.selected_row(), 0);
            &&& after.mode == Mode::Table
            &&& after.same_parents(&before)
            &&& after.active().rows == before.active().rows
            &&& is_search_result(
                results,
                before.columns@,
                before.active().rows@,
                before.input@.after(key).input,
                before.search_scope(before.command),
            )
            &&& results.len() > 0 ==> {
                &&& after.active().search_idx == idx
                &&& after.selected_row() == results[idx].0
                &&& after.selected_column() == results[idx].1
            }
        }),
{
    let typed = Model { input: after.input, ..before };
    let text = before.input@.after(key).input;
    let scope = typed.search_scope(before.command);
    let (found, table) = choose|found: Model, table: Model|
        {
            &&& #[trigger] found.matched(&typed, text, scope)
            &&& #[trigger] table.table_restored(&found)
            &&& table.wf()
            &&& after.search_moved(&table, SearchStep::Current)
        };
    let results = found.active().search_results@;
    lemma_first_from_in_range(results, before.selected_row(), 0);
}

/// The place that `first_from` gives is a place of the list, where the list
/// is not empty.
pub proof fn lemma_first_from_in_range(results: Seq<(usize, usize)>, row: int, start: int)
    requires
        start >= 0,
    ensures
        0 <= first_from(results, row, start),
        results.len() > 0 ==> first_from(results, row, start) < results.len(),
    decreases results.len() - start,
{
    if start < results.len() && results[start].0 < row {
        lemma_first_from_in_range(results, row, start + 1);
    }
}

/// A filter followed by an exit restores the view that was filtered: where
/// `filtered` is derived from `before` and `after` is `filtered` with its
/// active view closed, `after` has the views of `before`, and its active view
/// has the row mapping, the name, the selection and the matches that the
/// active view of `before` had.
pub proof fn lemma_filter_then_exit(before: Model, filtered: Model, after: Model, matches: Seq<usize>)
    requires
        before.views.len() > 0,
        filtered.derived_from(&before, matches),
        after.view_closed(&filtered),
    ensures
        after.same_parents(&before),
        after.active().rows == before.active().rows,
        after.active().name == before.active().name,
        after.active().offset_row == before.active().offset_row,
        after.active().offset_column == before.active().offset_column,
        after.active().search_results == before.active().search_results,
        after.active().column_histograms == before.active().column_histograms,
        after.columns == before.columns,
{
}
} // verus!
