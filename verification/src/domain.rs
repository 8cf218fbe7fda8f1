//! Errors, settings, keys and messages.

use vstd::prelude::*;

verus! {

/// Failure kinds reported to the operator.
#[derive(Debug)]
pub enum TVError {
    /// An input/output failure, with its message.
    IoError(String),
    /// A decode failure of the underlying data library, with its message.
    PolarsError(String),
    /// A load failure with a generic message.
    LoadingFailed(String),
    FileNotFound,
    PermissionDenied,
    UnknownFileType,
    /// A row or column index outside the dataset.
    DataIndexingError(String),
}

/// Settings of the viewer.
#[derive(Debug, Clone, Copy)]
pub struct TableConfig {
    /// Bound of one wait for an input event, in milliseconds.
    pub event_poll_time: u64,
    /// Widest render width of a column in normal status.
    pub max_column_width: usize,
    /// Padding added to the content width of a column.
    pub column_margin: usize,
    /// Longest header shown by the record inspector, in characters.
    pub max_header_length: usize,
}

/// What a composed command line is for.
#[derive(Debug, Clone, Copy, PartialEq, Eq, Structural)]
pub enum CommandKind {
    Raw,
    Search,
    SearchColumn,
    FilterColumn,
}

/// A key as the input buffer reads it.
#[derive(Debug, Clone, Copy, PartialEq, Eq, Structural)]
pub enum Key {
    Enter,
    Esc,
    Backspace,
    Left,
    Right,
    Up,
    Down,
    PageUp,
    PageDown,
    Home,
    End,
    Char(char),
    Other,
}

/// A key press: the key and the modifier bits held with it (`0` for none).
#[derive(Debug, Clone, Copy, PartialEq, Eq, Structural)]
pub struct KeyPress {
    pub code: Key,
    pub modifiers: u8,
}

/// An event of the terminal.
#[derive(Debug, Clone, Copy, PartialEq, Eq, Structural)]
pub enum Event {
    /// A key went down (`pressed`), or was repeated or released.
    Key { key: KeyPress, pressed: bool },
    /// The terminal has a new width and height.
    Resize(usize, usize),
    Other,
}

/// One input of the engine.
#[derive(Debug, Clone, Copy, PartialEq, Eq, Structural)]
pub enum Message {
    Quit,
    MoveUp,
    MoveDown,
    MoveLeft,
    MoveRight,
    PageUp,
    PageDown,
    MoveBeginning,
    MoveEnd,
    MoveFirstColumn,
    MoveLastColumn,
    Enter,
    Exit,
    Help,
    Histogram,
    Resize(usize, usize),
    ToggleIndex,
    ToggleCollapse,
    ToggleExpand,
    SortAscending,
    SortDescending,
    Command(CommandKind),
    RawKey(KeyPress),
    SearchNext,
    SearchPrevious,
    CopyCell,
    CopyRow,
}

} // verus!
