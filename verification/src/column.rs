//! The columns of the dataset: display strings, and how wide each is drawn.

use crate::domain::TableConfig;
use crate::text::{text_width, usize_to_string, width_of, decimal};
use vstd::prelude::*;
use vstd::string::*;

verus! {

/// Render width of a collapsed column: room for one placeholder glyph.
pub const COLLAPSED_WIDTH: usize = 1;

/// How wide a column is drawn.
#[derive(Debug, Clone, Copy, PartialEq, Eq, Structural)]
pub enum ColumnStatus {
    Normal,
    Expanded,
    Collapsed,
}

/// One column of the dataset: its display strings and how it is drawn.
pub struct Column {
    pub idx: u16,
    pub name: String,
    /// The column holds numbers: sorting compares `numbers` before the text.
    pub numeric: bool,
    /// The display string of every row.
    pub data: Vec<String>,
    /// For a numeric column, an integer for each row that orders as the row's
    /// number does, or `None` where the display string is no number.
    pub numbers: Vec<Option<i64>>,
    /// The widest display string of the column.
    pub width_max: usize,
    pub status: ColumnStatus,
    /// The render width, as `status` and the settings give it.
    pub width: usize,
}

/// Name and width of a column.
pub struct ColumnInfo {
    pub idx: u16,
    pub name: String,
    pub width: usize,
}

/// The larger of two widths.
pub open spec fn larger(a: usize, b: usize) -> usize {
    if a >= b {
        a
    } else {
        b
    }
}

/// The smaller of two widths.
pub open spec fn smaller(a: usize, b: usize) -> usize {
    if a <= b {
        a
    } else {
        b
    }
}

/// `a + b`, held at the largest `usize`.
pub open spec fn capped_sum(a: usize, b: usize) -> usize {
    if a + b > usize::MAX {
        usize::MAX
    } else {
        (a + b) as usize
    }
}

/// The width of the widest of `texts`, `0` where there is none.
pub open spec fn widest(texts: Seq<String>) -> usize
    decreases texts.len(),
{
    if texts.len() == 0 {
        0
    } else {
        larger(widest(texts.drop_last()), width_of(texts.last()@))
    }
}

/// The render width of a column whose name is `name_width` wide and whose
/// widest value is `width_max` wide.
pub open spec fn render_width(
    status: ColumnStatus,
    name_width: usize,
    width_max: usize,
    config: TableConfig,
) -> usize {
    let natural = capped_sum(larger(name_width, width_max), config.column_margin);
    match status {
        ColumnStatus::Collapsed => COLLAPSED_WIDTH,
        ColumnStatus::Normal => smaller(natural, config.max_column_width),
        ColumnStatus::Expanded => natural,
    }
}

/// The status after a press of the collapse toggle: a collapsed column comes
/// back to normal, every other one is collapsed.
pub open spec fn collapse_toggled(status: ColumnStatus) -> ColumnStatus {
    if status == ColumnStatus::Collapsed {
        ColumnStatus::Normal
    } else {
        ColumnStatus::Collapsed
    }
}

/// The status after a press of the expand toggle: a normal column is
/// expanded, an expanded or a collapsed one comes back to normal.
pub open spec fn expand_toggled(status: ColumnStatus) -> ColumnStatus {
    if status == ColumnStatus::Normal {
        ColumnStatus::Expanded
    } else {
        ColumnStatus::Normal
    }
}

/// Computes the width of the widest of `texts`.
pub fn widest_text(texts: &Vec<String>) -> (w: usize)
    ensures
        w == widest(texts@),
{
    let mut w: usize = 0;
    let mut i: usize = 0;
    while i < texts.len()
        invariant
            i <= texts.len(),
            w == widest(texts@.take(i as int)),
        decreases texts.len() - i,
    {
        let here: usize = text_width(&texts[i]);
        proof {
            assert(texts@.take(i + 1).drop_last() =~= texts@.take(i as int));
        }
        if here > w {
            w = here;
        }
        i = i + 1;
    }
    proof {
        assert(texts@.take(i as int) =~= texts@);
    }
    w
}

impl Column {
    /// A numeric column has a number, or none, for every row.
    pub open spec fn wf(&self) -> bool {
        self.numeric ==> self.numbers.len() == self.data.len()
    }

    /// The render width that the column's status asks for under `config`.
    pub open spec fn wanted_width(&self, config: TableConfig) -> usize {
        render_width(self.status, width_of(self.name@), self.width_max, config)
    }

    /// Recomputes the render width from the status.
    pub fn update_width(&mut self, config: &TableConfig)
        ensures
            final(self).width == old(self).wanted_width(*config),
            final(self).idx == old(self).idx,
            final(self).name == old(self).name,
            final(self).numeric == old(self).numeric,
            final(self).data == old(self).data,
            final(self).numbers == old(self).numbers,
            final(self).width_max == old(self).width_max,
            final(self).status == old(self).status,
    {
        let name_width: usize = text_width(&self.name);
        let content: usize = if name_width >= self.width_max {
            name_width
        } else {
            self.width_max
        };
        let natural: usize = content.saturating_add(config.column_margin);
        self.width = match self.status {
            ColumnStatus::Collapsed => COLLAPSED_WIDTH,
            ColumnStatus::Normal => if natural <= config.max_column_width {
                natural
            } else {
                config.max_column_width
            },
            ColumnStatus::Expanded => natural,
        };
    }

    /// Collapses the column, or brings a collapsed one back to normal.
    pub fn toggle_collapse(&mut self, config: &TableConfig)
        ensures
            final(self).status == collapse_toggled(old(self).status),
            final(self).width == final(self).wanted_width(*config),
            final(self).idx == old(self).idx,
            final(self).name == old(self).name,
            final(self).numeric == old(self).numeric,
            final(self).data == old(self).data,
            final(self).numbers == old(self).numbers,
            final(self).width_max == old(self).width_max,
    {
        self.status = match self.status {
            ColumnStatus::Collapsed => ColumnStatus::Normal,
            _ => ColumnStatus::Collapsed,
        };
        self.update_width(config);
    }

    /// Expands a normal column, or brings an expanded or a collapsed one back
    /// to normal.
    pub fn toggle_expand(&mut self, config: &TableConfig)
        ensures
            final(self).status == expand_toggled(old(self).status),
            final(self).width == final(self).wanted_width(*config),
            final(self).idx == old(self).idx,
            final(self).name == old(self).name,
            final(self).numeric == old(self).numeric,
            final(self).data == old(self).data,
            final(self).numbers == old(self).numbers,
            final(self).width_max == old(self).width_max,
    {
        self.status = match self.status {
            ColumnStatus::Normal => ColumnStatus::Expanded,
            _ => ColumnStatus::Normal,
        };
        self.update_width(config);
    }

    /// The text of [`Column::as_string`].
    pub open spec fn summary(&self) -> Seq<char> {
        decimal(self.idx as nat) + " \""@ + self.name@ + "\", width: "@ + decimal(self.width as nat)
            + ", width_max: "@ + decimal(self.width_max as nat) + ", # rows "@ + decimal(
            self.data.len() as nat,
        )
    }

    /// One line that describes the column.
    pub fn as_string(&self) -> (line: String)
        ensures
            line@ == self.summary(),
    {
        let mut line: String = usize_to_string(self.idx as usize);
        line.append(" \"");
        line.append(self.name.as_str());
        line.append("\", width: ");
        line.append(usize_to_string(self.width).as_str());
        line.append(", width_max: ");
        line.append(usize_to_string(self.width_max).as_str());
        line.append(", # rows ");
        line.append(usize_to_string(self.data.len()).as_str());
        line
    }
}

/// The number of rows of a dataset: that of its first column.
pub open spec fn row_count(columns: Seq<Column>) -> nat {
    if columns.len() == 0 {
        0
    } else {
        columns[0].data@.len()
    }
}

/// Every column carries its place in the dataset as its number, counted
/// modulo 2^16.
pub open spec fn columns_numbered(columns: Seq<Column>) -> bool {
    forall|c: int| 0 <= c < columns.len() ==> (#[trigger] columns[c]).idx == c % 65536
}

/// Every column is well formed and has as many rows as the others.
pub open spec fn dataset_shape(columns: Seq<Column>) -> bool {
    forall|c: int|
        0 <= c < columns.len() ==> {
            &&& (#[trigger] columns[c]).wf()
            &&& columns[c].data.len() == row_count(columns)
        }
}

/// The dataset has its shape, and every column is as wide as its status asks
/// for under `config`.
pub open spec fn dataset_wf(columns: Seq<Column>, config: TableConfig) -> bool {
    &&& dataset_shape(columns)
    &&& forall|c: int|
        0 <= c < columns.len() ==> (#[trigger] columns[c]).width == columns[c].wanted_width(config)
}

/// A normal column is never wider than the configured maximum, and expanding
/// it never makes it narrower.
pub proof fn lemma_width_clamp(name_width: usize, width_max: usize, config: TableConfig)
    ensures
        render_width(ColumnStatus::Normal, name_width, width_max, config)
            <= config.max_column_width,
        render_width(ColumnStatus::Expanded, name_width, width_max, config) >= render_width(
            ColumnStatus::Normal,
            name_width,
            width_max,
            config,
        ),
{
}

/// Two presses of the collapse toggle, or of the expand toggle, leave a
/// normal column as it was.
pub proof fn lemma_toggle_twice(status: ColumnStatus)
    ensures
        status != ColumnStatus::Expanded ==> collapse_toggled(collapse_toggled(status)) == status,
        status != ColumnStatus::Collapsed ==> expand_toggled(expand_toggled(status)) == status,
{
}

/// The collapse toggle followed by the expand toggle leaves a normal column
/// as it was, its render width with it; so does the pair pressed twice.
pub proof fn lemma_collapse_then_expand(name_width: usize, width_max: usize, config: TableConfig)
    ensures
        expand_toggled(collapse_toggled(ColumnStatus::Normal)) == ColumnStatus::Normal,
        expand_toggled(
            collapse_toggled(expand_toggled(collapse_toggled(ColumnStatus::Normal))),
        ) == ColumnStatus::Normal,
        render_width(
            expand_toggled(collapse_toggled(expand_toggled(collapse_toggled(ColumnStatus::Normal)))),
            name_width,
            width_max,
            config,
        ) == render_width(ColumnStatus::Normal, name_width, width_max, config),
{
}

} // verus!
