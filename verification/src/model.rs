//! The engine: dataset, stack of table views, inspectors and current mode.

use crate::column::{
    columns_numbered, dataset_shape, dataset_wf, row_count, widest, widest_text, Column,
    ColumnInfo, ColumnStatus,
};
use crate::domain::{CommandKind, TVError, TableConfig};
use crate::histogram::{identity_rows, HistogramView};
use crate::inputter::Inputter;
use crate::layout::Layout;
use crate::record::RecordView;
use crate::table_view::TableView;
use crate::text::{
    decimal, replaced, str_replace, str_to_uppercase, text_width, uppercase_of,
    usize_to_string, width_of,
};
use std::path::PathBuf;
use vstd::prelude::*;
use vstd::string::*;

verus! {

/// The kinds of file that can be loaded.
#[derive(Debug, Clone, Copy, PartialEq, Eq, Structural)]
pub enum FileType {
    CSV,
    PARQUET,
    XLSX,
}

/// Where the engine stands in its life.
#[derive(Debug, Clone, Copy, PartialEq, Eq, Structural)]
pub enum Status {
    EMPTY,
    READY,
    LOADING,
    PROCESSING,
    EXITING,
}

/// The interaction modes.
#[derive(Debug, Clone, Copy, PartialEq, Eq, Structural)]
pub enum Mode {
    Table,
    Record,
    Histogram,
    Popup,
    CommandInput,
}

/// Why the file system could not tell about a path.
#[derive(Debug)]
pub enum StatFailure {
    NotFound,
    PermissionDenied,
    /// Any other failure, with its message.
    Other(String),
}

/// What is known of the loaded file.
#[derive(Debug)]
pub struct FileInfo {
    pub path: PathBuf,
    pub file_size: u64,
    pub file_type: FileType,
}

/// The engine: the dataset, the stack of table views over it, the record and
/// histogram inspectors, the command line and the current mode.
pub struct Model {
    pub file_info: FileInfo,
    pub status: Status,
    pub config: TableConfig,
    /// The columns of the dataset.
    pub columns: Vec<Column>,
    /// The size of the terminal.
    pub width: usize,
    pub height: usize,
    pub layout: Layout,
    /// The table views; the last one is the active one.
    pub views: Vec<TableView>,
    pub record: Option<RecordView>,
    pub histogram: Option<HistogramView>,
    pub mode: Mode,
    /// The mode to return to from the popup or the command line.
    pub previous_mode: Mode,
    /// What the command line is composed for.
    pub command: CommandKind,
    pub input: Inputter,
    /// A text that waits to be handed to the clipboard.
    pub clipboard: Option<String>,
    /// The number of messages applied so far, modulo 2^64.
    pub last_update: u64,
}

/// What stands in for an absent value.
pub open spec fn absent_glyph() -> Seq<char> {
    "\u{2205}"@
}

/// What stands in for a line break inside a value.
pub open spec fn line_break_glyph() -> Seq<char> {
    "\u{23ce}"@
}

/// The display string of a raw value: the value with its line breaks made
/// visible, or the placeholder of an absent value.
pub open spec fn display_of(value: Option<String>) -> Seq<char> {
    match value {
        Some(text) => replaced(text@, '\n', line_break_glyph()),
        None => absent_glyph(),
    }
}

/// The kind of file that the upper-case extension `upper` stands for.
pub open spec fn file_type_named(upper: Seq<char>) -> Option<FileType> {
    if upper == "CSV"@ {
        Some(FileType::CSV)
    } else if upper == "PARQUET"@ {
        Some(FileType::PARQUET)
    } else if upper == "XLSX"@ {
        Some(FileType::XLSX)
    } else {
        None
    }
}

/// Tells the kind of file from its extension in upper case.
pub fn file_type_of(upper: &str) -> (kind: Result<FileType, TVError>)
    ensures
        match kind {
            Ok(t) => file_type_named(upper@) == Some(t),
            Err(e) => file_type_named(upper@) is None && e is UnknownFileType,
        },
{
    let text: String = String::from_str(upper);
    if text == String::from_str("CSV") {
        Ok(FileType::CSV)
    } else if text == String::from_str("PARQUET") {
        Ok(FileType::PARQUET)
    } else if text == String::from_str("XLSX") {
        Ok(FileType::XLSX)
    } else {
        Err(TVError::UnknownFileType)
    }
}

/// Tells the kind of file from the extension of its name, whatever the letter
/// case; a name without extension has an unknown kind.
pub fn detect_file_type(extension: Option<&str>) -> (kind: Result<FileType, TVError>)
    ensures
        match kind {
            Ok(t) => extension is Some && file_type_named(uppercase_of(extension->0@)) == Some(t),
            Err(e) => e is UnknownFileType && (extension matches Some(ext) ==> file_type_named(
                uppercase_of(ext@),
            ) is None),
        },
{
    match extension {
        Some(ext) => {
            let upper: String = str_to_uppercase(ext);
            file_type_of(upper.as_str())
        },
        None => Err(TVError::UnknownFileType),
    }
}

/// What the file system told about a path, as the error that it means for
/// loading: a path that is not there, one that may not be read, another
/// failure with its message, and a path that is no file.
pub open spec fn stat_error(stat: Result<(bool, u64), StatFailure>, e: TVError) -> bool {
    match stat {
        Err(StatFailure::NotFound) => e is FileNotFound,
        Err(StatFailure::PermissionDenied) => e is PermissionDenied,
        Err(StatFailure::Other(text)) => e matches TVError::IoError(t) && t@ == text@,
        Ok((is_file, _)) => !is_file && (e matches TVError::LoadingFailed(t) && t@ == "Not a file!"@),
    }
}

impl FileInfo {
    /// The description of the file at `path` from what the file system told
    /// about it: whether it is a file, and its size. A failure of the file
    /// system and a path that is no file are reported as such; of a file the
    /// kind is told from `extension`.
    pub fn from_stat(
        path: PathBuf,
        stat: Result<(bool, u64), StatFailure>,
        extension: Option<&str>,
    ) -> (info: Result<FileInfo, TVError>)
        ensures
            info is Ok <==> (stat matches Ok((is_file, _)) && is_file && extension is Some
                && file_type_named(uppercase_of(extension->0@)) is Some),
            info matches Ok(i) ==> i.path == path && i.file_size == stat->Ok_0.1 && Some(i.file_type)
                == file_type_named(uppercase_of(extension->0@)),
            info matches Err(e) ==> if stat matches Ok((is_file, _)) && is_file {
                e is UnknownFileType
            } else {
                stat_error(stat, e)
            },
    {
        match stat {
            Err(StatFailure::NotFound) => Err(TVError::FileNotFound),
            Err(StatFailure::PermissionDenied) => Err(TVError::PermissionDenied),
            Err(StatFailure::Other(text)) => Err(TVError::IoError(text)),
            Ok((is_file, file_size)) => {
                if !is_file {
                    return Err(TVError::LoadingFailed(String::from_str("Not a file!")));
                }
                FileInfo::new(path, file_size, extension)
            },
        }
    }

    /// The description of the file at `path` with `file_size` bytes, its kind
    /// told from `extension`.
    pub fn new(path: PathBuf, file_size: u64, extension: Option<&str>) -> (info: Result<FileInfo, TVError>)
        ensures
            match info {
                Ok(i) => i.path == path && i.file_size == file_size && extension is Some
                    && file_type_named(uppercase_of(extension->0@)) == Some(i.file_type),
                Err(e) => e is UnknownFileType && (extension matches Some(ext) ==> file_type_named(
                    uppercase_of(ext@),
                ) is None),
            },
    {
        match detect_file_type(extension) {
            Ok(file_type) => Ok(FileInfo { path, file_size, file_type }),
            Err(e) => Err(e),
        }
    }
}

/// A column `result` was made from the raw values `values`.
pub open spec fn made_from(
    result: Column,
    idx: usize,
    name: Seq<char>,
    numeric: bool,
    values: Seq<Option<String>>,
    numbers: Seq<Option<i64>>,
    config: TableConfig,
) -> bool {
    &&& result.idx == idx % 65536
    &&& result.name@ == name
    &&& result.numeric == numeric
    &&& result.numbers@ == numbers
    &&& result.data.len() == values.len()
    &&& forall|i: int| 0 <= i < values.len() ==> (#[trigger] result.data[i])@ == display_of(values[i])
    &&& result.width_max == if values.len() == 0 {
        width_of(name)
    } else {
        widest(result.data@)
    }
    &&& result.status == ColumnStatus::Normal
    &&& result.width == result.wanted_width(config)
    &&& result.wf()
}

impl Model {
    /// Makes the column number `idx`, named `col_name`, from its raw values:
    /// a line break inside a value is shown as a visible marker, an absent
    /// value as a placeholder glyph, the widest display string is measured
    /// (the name, where there is no value), and the column starts in normal
    /// status. A numeric column brings, for every value, an
    /// integer that orders as its number does, or none; where their count
    /// differs from that of the values the column is refused.
    pub fn process_column(
        idx: usize,
        col_name: &str,
        numeric: bool,
        values: Vec<Option<String>>,
        numbers: Vec<Option<i64>>,
        config: &TableConfig,
    ) -> (column: Result<Column, TVError>)
        ensures
            column is Ok <==> (numeric ==> numbers.len() == values.len()),
            column matches Ok(c) ==> made_from(c, idx, col_name@, numeric, values@, numbers@, *config),
            column matches Err(e) ==> e is LoadingFailed,
    {
        if numeric && numbers.len() != values.len() {
            return Err(TVError::LoadingFailed(String::from_str("Column data and numbers differ in length")));
        }
        let mut data: Vec<String> = Vec::new();
        let mut i: usize = 0;
        while i < values.len()
            invariant
                i <= values.len(),
                data.len() == i,
                forall|k: int| 0 <= k < i ==> (#[trigger] data[k])@ == display_of(values[k]),
            decreases values.len() - i,
        {
            let text: String = match &values[i] {
                Some(s) => str_replace(s.as_str(), '\n', "\u{23ce}"),
                None => String::from_str("\u{2205}"),
            };
            data.push(text);
            i = i + 1;
        }
        let name: String = String::from_str(col_name);
        let width_max: usize = if data.len() == 0 {
            text_width(&name)
        } else {
            widest_text(&data)
        };
        let mut column = Column {
            idx: (idx % 65536) as u16,
            name,
            numeric,
            data,
            numbers,
            width_max,
            status: ColumnStatus::Normal,
            width: 0,
        };
        column.update_width(config);
        Ok(column)
    }

    /// The table view that is shown.
    pub open spec fn active(&self) -> TableView {
        self.views[self.views.len() - 1]
    }

    /// The mode that lies under the popup or the command line.
    pub open spec fn base_mode(&self) -> Mode {
        if self.mode == Mode::Popup || self.mode == Mode::CommandInput {
            self.previous_mode
        } else {
            self.mode
        }
    }

    /// The record inspector shows a row of the active view.
    pub open spec fn record_wf(&self) -> bool {
        self.record matches Some(r) && r.wf(self.active().rows@, self.columns@, self.config)
    }

    /// The histogram inspector shows a histogram that the active view holds.
    pub open spec fn histogram_wf(&self) -> bool {
        self.histogram matches Some(h) && {
            &&& self.active().column_histograms@.contains_key(h.column_idx)
            &&& h.wf(
                self.active().column_histograms@[h.column_idx],
                self.active().rows.len(),
            )
        }
    }

    /// The dataset has its shape, its columns are numbered by their place,
    /// there is a root view, and every view names rows of the dataset.
    pub open spec fn stack_wf(&self) -> bool {
        &&& dataset_wf(self.columns@, self.config)
        &&& columns_numbered(self.columns@)
        &&& self.views.len() > 0
        &&& forall|i: int| 0 <= i < self.views.len() ==> (#[trigger] self.views[i]).anchored(self.columns@)
    }

    /// The engine is consistent: the stack of views is, the active view is
    /// drawn, and the inspector of the current mode shows the active view.
    pub open spec fn wf(&self) -> bool {
        &&& self.stack_wf()
        &&& self.active().wf(self.columns@)
        &&& (self.mode == Mode::Table ==> self.active().sized_for(self.layout))
        &&& self.base_mode() != Mode::Popup
        &&& self.base_mode() != Mode::CommandInput
        &&& (self.mode == Mode::CommandInput ==> self.previous_mode == Mode::Table)
        &&& (self.base_mode() == Mode::Record ==> self.record_wf())
        &&& (self.base_mode() == Mode::Histogram ==> self.histogram_wf())
    }

    /// Builds the engine over the columns of a loaded file, on a terminal
    /// `width` columns wide and `height` rows high. Every column is numbered
    /// by its place and gets the width that its status asks for. The root
    /// view is named `name` and maps its rows one to one onto the rows of the
    /// dataset. Columns that differ in their number of rows are refused.
    pub fn load(
        name: String,
        file_info: FileInfo,
        columns: Vec<Column>,
        config: TableConfig,
        width: usize,
        height: usize,
    ) -> (model: Result<Model, TVError>)
        ensures
            model is Ok <==> dataset_shape(columns@),
            model matches Err(e) ==> e is LoadingFailed,
            model matches Ok(m) ==> {
                &&& m.wf()
                &&& m.status == Status::READY
                &&& m.mode == Mode::Table
                &&& m.config == config
                &&& m.width == width
                &&& m.height == height
                &&& m.layout == Layout::layout_for(width, height, false, 0)
                &&& m.file_info == file_info
                &&& m.columns@.len() == columns@.len()
                &&& forall|c: int|
                    0 <= c < columns.len() ==> {
                        &&& (#[trigger] m.columns[c]).idx == c % 65536
                        &&& m.columns[c].name == columns[c].name
                        &&& m.columns[c].numeric == columns[c].numeric
                        &&& m.columns[c].data == columns[c].data
                        &&& m.columns[c].numbers == columns[c].numbers
                        &&& m.columns[c].width_max == columns[c].width_max
                        &&& m.columns[c].status == columns[c].status
                        &&& m.columns[c].width == columns[c].wanted_width(config)
                    }
                &&& m.views.len() == 1
                &&& m.views[0].name == name
                &&& m.views[0].rows@ == Seq::new(row_count(columns@), |i: int| i as usize)
                &&& m.views[0].show_index == false
                &&& m.views[0].offset_row == 0
                &&& m.views[0].offset_column == 0
                &&& m.views[0].curser_row == 0
                &&& m.views[0].curser_column == 0
                &&& m.views[0].search_results@ == Seq::<(usize, usize)>::empty()
                &&& m.views[0].column_histograms@ == Map::<usize, crate::histogram::Histogram>::empty()
                &&& m.record is None
                &&& m.histogram is None
                &&& m.previous_mode == Mode::Table
                &&& m.command == CommandKind::Raw
                &&& m.input@ == crate::inputter::InputState::empty()
                &&& m.clipboard is None
                &&& m.last_update == 0
            },
    {
        let ghost given = columns@;
        let mut cols: Vec<Column> = columns;
        let rows: usize = if cols.len() == 0 {
            0
        } else {
            cols[0].data.len()
        };
        let mut c: usize = 0;
        while c < cols.len()
            invariant
                c <= cols.len(),
                given == columns@,
                cols.len() == given.len(),
                rows == row_count(given),
                forall|k: int| 0 <= k < cols.len() ==> {
                    &&& (#[trigger] cols[k]).data == given[k].data
                    &&& cols[k].name == given[k].name
                    &&& cols[k].status == given[k].status
                    &&& cols[k].numeric == given[k].numeric
                    &&& cols[k].numbers == given[k].numbers
                    &&& cols[k].width_max == given[k].width_max
                },
                forall|k: int| 0 <= k < c ==> {
                    &&& (#[trigger] cols[k]).idx == k % 65536
                    &&& cols[k].wf()
                    &&& cols[k].data.len() == rows
                    &&& cols[k].width == cols[k].wanted_width(config)
                },
            decreases cols.len() - c,
        {
            let good: bool = cols[c].data.len() == rows && (!cols[c].numeric
                || cols[c].numbers.len() == cols[c].data.len());
            if !good {
                return Err(TVError::LoadingFailed(String::from_str("Columns differ in length")));
            }
            cols[c].idx = (c % 65536) as u16;
            cols[c].update_width(&config);
            c = c + 1;
        }
        proof {
            assert forall|k: int| 0 <= k < given.len() implies (#[trigger] given[k]).wf()
                && given[k].data.len() == row_count(given) by {
                assert(cols[k].wf());
            }
        }
        let layout: Layout = Layout::compute(width, height, false, 0);
        let root: TableView = TableView::new(name, identity_rows(rows), false, &cols, &layout);
        let mut views: Vec<TableView> = Vec::new();
        views.push(root);
        Ok(
            Model {
                file_info,
                status: Status::READY,
                config,
                columns: cols,
                width,
                height,
                layout,
                views,
                record: None,
                histogram: None,
                mode: Mode::Table,
                previous_mode: Mode::Table,
                command: CommandKind::Raw,
                input: Inputter::new(),
                clipboard: None,
                last_update: 0,
            },
        )
    }

    /// The number of rows of the dataset.
    pub fn nrows(&self) -> (n: usize)
        ensures
            n == row_count(self.columns@),
    {
        let mut nrows: usize = 0;
        if self.columns.len() > 0 {
            nrows = self.columns[0].data.len();
        }
        nrows
    }

    /// The number of columns of the dataset.
    pub fn ncols(&self) -> (n: usize)
        ensures
            n == self.columns.len(),
    {
        self.columns.len()
    }

    /// Number, name and width of column `idx`; an indexing error where there
    /// is no such column. In a dataset whose columns are numbered by their
    /// place, as every loaded one is, the number is `idx` modulo 2^16.
    pub fn get_column_info(&self, idx: usize) -> (info: Result<ColumnInfo, TVError>)
        ensures
            info is Ok <==> idx < self.columns.len(),
            info matches Ok(i) ==> i.idx == self.columns[idx as int].idx && i.name@
                == self.columns[idx as int].name@ && i.width == self.columns[idx as int].width,
            info matches Ok(i) ==> (columns_numbered(self.columns@) ==> i.idx == idx % 65536),
            info matches Err(e) ==> e matches TVError::DataIndexingError(text) && text@
                == "Column index out of bounds"@,
    {
        if idx >= self.columns.len() {
            return Err(TVError::DataIndexingError(String::from_str("Column index out of bounds")));
        }
        let column: &Column = &self.columns[idx];
        Ok(ColumnInfo { idx: column.idx, name: column.name.clone(), width: column.width })
    }

    /// A copy of the path of the loaded file.
    pub fn get_path(&self) -> (path: PathBuf)
        ensures
            path == self.file_info.path,
    {
        self.file_info.path.clone()
    }

    /// Ends the session: no further message is applied.
    pub fn exit(&mut self)
        ensures
            *final(self) == (Model { status: Status::EXITING, ..*old(self) }),
    {
        self.status = Status::EXITING;
    }

    /// The names of the columns, in their order.
    pub fn get_headers(&self) -> (headers: Vec<String>)
        ensures
            headers.len() == self.columns.len(),
            forall|c: int| 0 <= c < headers.len() ==> (#[trigger] headers[c])@ == self.columns[c].name@,
    {
        let mut headers: Vec<String> = Vec::new();
        let mut c: usize = 0;
        while c < self.columns.len()
            invariant
                c <= self.columns.len(),
                headers.len() == c,
                forall|k: int| 0 <= k < c ==> (#[trigger] headers[k])@ == self.columns[k].name@,
            decreases self.columns.len() - c,
        {
            headers.push(self.columns[c].name.clone());
            c = c + 1;
        }
        headers
    }

    /// The first of `row_idxs` that is no row of column `column_idx`.
    pub open spec fn first_missing(&self, column_idx: int, row_idxs: Seq<usize>) -> Option<usize>
        decreases row_idxs.len(),
    {
        if row_idxs.len() == 0 {
            None
        } else {
            match self.first_missing(column_idx, row_idxs.drop_last()) {
                Some(idx) => Some(idx),
                None => if row_idxs.last() >= self.columns[column_idx].data.len() {
                    Some(row_idxs.last())
                } else {
                    None
                },
            }
        }
    }

    /// The display strings of column `column_idx` in the dataset rows
    /// `row_idxs`, or in all rows where `row_idxs` is empty. A column or a
    /// row that the dataset does not have is an indexing error, which names
    /// the first such row.
    pub fn get_column_data(&self, column_idx: usize, row_idxs: Vec<usize>) -> (data: Result<Vec<&String>, TVError>)
        ensures
            data is Ok <==> column_idx < self.columns.len() && self.first_missing(
                column_idx as int,
                row_idxs@,
            ) is None,
            data matches Ok(cells) ==> if row_idxs.len() == 0 {
                &&& cells.len() == self.columns[column_idx as int].data.len()
                &&& forall|i: int|
                    0 <= i < cells.len() ==> *(#[trigger] cells[i]) == self.columns[column_idx as int].data[i]
            } else {
                &&& cells.len() == row_idxs.len()
                &&& forall|i: int|
                    0 <= i < cells.len() ==> *(#[trigger] cells[i])
                        == self.columns[column_idx as int].data[row_idxs[i] as int]
            },
            data matches Err(e) ==> e matches TVError::DataIndexingError(text) && text@
                == if column_idx >= self.columns.len() {
                "Column index out of bounds"@
            } else {
                "Row "@ + decimal(self.first_missing(column_idx as int, row_idxs@)->0 as nat)
                    + " not found"@
            },
    {
        if column_idx >= self.columns.len() {
            return Err(TVError::DataIndexingError(String::from_str("Column index out of bounds")));
        }
        let column: &Column = &self.columns[column_idx];
        let mut result: Vec<&String> = Vec::new();
        if row_idxs.len() == 0 {
            let mut i: usize = 0;
            while i < column.data.len()
                invariant
                    i <= column.data.len(),
                    result.len() == i,
                    forall|k: int| 0 <= k < i ==> *(#[trigger] result[k]) == column.data[k],
                decreases column.data.len() - i,
            {
                result.push(&column.data[i]);
                i = i + 1;
            }
            Ok(result)
        } else {
            let mut i: usize = 0;
            while i < row_idxs.len()
                invariant
                    i <= row_idxs.len(),
                    result.len() == i,
                    column_idx < self.columns.len(),
                    column == self.columns[column_idx as int],
                    self.first_missing(column_idx as int, row_idxs@.take(i as int)) is None,
                    forall|k: int| 0 <= k < i ==> *(#[trigger] result[k]) == column.data[row_idxs[k] as int],
                decreases row_idxs.len() - i,
            {
                let idx: usize = row_idxs[i];
                proof {
                    assert(row_idxs@.take(i + 1).drop_last() =~= row_idxs@.take(i as int));
                    self.lemma_first_missing_prefix(column_idx as int, row_idxs@, i + 1);
                }
                if idx >= column.data.len() {
                    let mut text: String = String::from_str("Row ");
                    text.append(usize_to_string(idx).as_str());
                    text.append(" not found");
                    return Err(TVError::DataIndexingError(text));
                }
                result.push(&column.data[idx]);
                i = i + 1;
            }
            proof {
                assert(row_idxs@.take(i as int) =~= row_idxs@);
            }
            Ok(result)
        }
    }

    /// A row that is missing among the first `n` of `row_idxs` is the first
    /// missing row of all of them.
    pub proof fn lemma_first_missing_prefix(&self, column_idx: int, row_idxs: Seq<usize>, n: int)
        requires
            0 <= n <= row_idxs.len(),
        ensures
            self.first_missing(column_idx, row_idxs.take(n)) is Some ==> self.first_missing(
                column_idx,
                row_idxs,
            ) == self.first_missing(column_idx, row_idxs.take(n)),
        decreases row_idxs.len() - n,
    {
        if n < row_idxs.len() {
            self.lemma_first_missing_prefix(column_idx, row_idxs, n + 1);
            assert(row_idxs.take(n + 1).drop_last() =~= row_idxs.take(n));
        } else {
            assert(row_idxs.take(n) =~= row_idxs);
        }
    }
}

} // verus!
