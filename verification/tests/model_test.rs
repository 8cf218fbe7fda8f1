use std::path::PathBuf;
use tv::column::{Column, ColumnStatus};
use tv::domain::{CommandKind, Key, KeyPress, Message, TVError, TableConfig};
use tv::layout::Layout;
use tv::model::{
    detect_file_type, file_type_of, FileInfo, FileType, Mode, Model, StatFailure, Status,
};

fn model_config() -> TableConfig {
    TableConfig { event_poll_time: 100, max_column_width: 12, column_margin: 1, max_header_length: 8 }
}

fn model_column(idx: usize, name: &str, values: &[&str]) -> Column {
    let raw: Vec<Option<String>> = values.iter().map(|v| Some(v.to_string())).collect();
    Model::process_column(idx, name, false, raw, Vec::new(), &model_config()).unwrap()
}

fn small_model() -> Model {
    let columns = vec![
        model_column(0, "id", &["1", "2", "3"]),
        model_column(1, "name", &["ann", "bob", "cy"]),
    ];
    let info = FileInfo::new(PathBuf::from("dir/m.csv"), 42, Some("csv")).unwrap();
    Model::load("m.csv".to_string(), info, columns, model_config(), 80, 24).unwrap()
}

fn key(code: Key) -> Message {
    Message::RawKey(KeyPress { code, modifiers: 0 })
}

#[test]
fn new_model_is_ready_in_table_mode() {
    let model = small_model();
    assert_eq!(model.status, Status::READY);
    assert_eq!(model.mode, Mode::Table);
    assert_eq!(model.nrows(), 3);
    assert_eq!(model.ncols(), 2);
    assert_eq!(model.layout, Layout::compute(80, 24, false, 0));
    assert_eq!(model.get_path(), PathBuf::from("dir/m.csv"));
    assert_eq!(model.file_info.file_size, 42);
    assert_eq!(model.file_info.file_type, FileType::CSV);
    assert_eq!(model.get_headers(), vec!["id".to_string(), "name".to_string()]);
    assert!(model.clipboard.is_none());
    assert_eq!(model.last_update, 0);
}

#[test]
fn new_model_refuses_columns_of_different_length() {
    let columns = vec![model_column(0, "id", &["1", "2", "3"]), model_column(1, "name", &["ann"])];
    let info = FileInfo::new(PathBuf::from("m.csv"), 42, Some("csv")).unwrap();
    let model = Model::load("m.csv".to_string(), info, columns, model_config(), 80, 24);
    assert!(matches!(model, Err(TVError::LoadingFailed(_))));
}

#[test]
fn new_model_sets_widths_from_its_own_settings() {
    let other = TableConfig { event_poll_time: 1, max_column_width: 3, column_margin: 2, max_header_length: 8 };
    let columns = vec![model_column(0, "id", &["1", "2", "3"]), model_column(1, "name", &["ann", "bob", "cy"])];
    let info = FileInfo::new(PathBuf::from("m.csv"), 42, Some("csv")).unwrap();
    let model = Model::load("m.csv".to_string(), info, columns, other, 80, 24).unwrap();
    assert_eq!(model.columns[0].width, 3);
    assert_eq!(model.columns[1].width, 3);
}

#[test]
fn model_of_no_columns_has_no_rows() {
    let info = FileInfo::new(PathBuf::from("m.csv"), 0, Some("csv")).unwrap();
    let mut model = Model::load("m.csv".to_string(), info, Vec::new(), model_config(), 80, 24).unwrap();
    assert_eq!(model.nrows(), 0);
    assert_eq!(model.ncols(), 0);
    for message in [Message::MoveDown, Message::MoveRight, Message::Enter, Message::SortAscending, Message::ToggleCollapse, Message::CopyCell, Message::MoveEnd, Message::MoveLastColumn] {
        model.update(message).unwrap();
        assert_eq!(model.mode, Mode::Table);
    }
    assert!(model.clipboard.is_none());
}

#[test]
fn quit_ends_the_engine_from_every_mode() {
    for opener in [None, Some(Message::Enter), Some(Message::Histogram), Some(Message::Help), Some(Message::Command(CommandKind::Raw))] {
        let mut model = small_model();
        if let Some(message) = opener {
            model.update(message).unwrap();
        }
        let mode = model.mode;
        model.update(Message::Quit).unwrap();
        assert_eq!(model.status, Status::EXITING);
        assert_eq!(model.mode, mode);
    }
}

#[test]
fn no_message_is_applied_after_quit() {
    let mut model = small_model();
    model.update(Message::MoveDown).unwrap();
    model.update(Message::Quit).unwrap();
    let count = model.last_update;
    assert_eq!(count, 2);
    for message in [Message::MoveDown, Message::Enter, Message::Help, Message::Resize(10, 10), Message::Quit] {
        model.update(message).unwrap();
        assert_eq!(model.status, Status::EXITING);
        assert_eq!(model.mode, Mode::Table);
        assert_eq!(model.last_update, count);
        assert_eq!(model.views[0].curser_row, 1);
        assert_eq!(model.width, 80);
    }
}

#[test]
fn exit_sets_the_status() {
    let mut model = small_model();
    model.exit();
    assert_eq!(model.status, Status::EXITING);
}

#[test]
fn help_opens_the_popup_and_exit_restores_the_mode() {
    for (opener, mode) in [(None, Mode::Table), (Some(Message::Enter), Mode::Record), (Some(Message::Histogram), Mode::Histogram)] {
        let mut model = small_model();
        if let Some(message) = opener {
            model.update(message).unwrap();
        }
        assert_eq!(model.mode, mode);
        model.update(Message::Help).unwrap();
        assert_eq!(model.mode, Mode::Popup);
        assert_eq!(model.previous_mode, mode);
        // the popup takes nothing but exit, resize and quit
        model.update(Message::Help).unwrap();
        model.update(Message::MoveDown).unwrap();
        model.update(Message::Enter).unwrap();
        assert_eq!(model.mode, Mode::Popup);
        assert_eq!(model.previous_mode, mode);
        model.update(Message::Exit).unwrap();
        assert_eq!(model.mode, mode);
    }
}

#[test]
fn resize_under_the_popup_is_drawn_on_return() {
    let mut model = small_model();
    model.update(Message::Help).unwrap();
    model.update(Message::Resize(80, 4)).unwrap();
    assert_eq!(model.layout.table_height, 2);
    assert_eq!(model.views[0].height, 22);
    model.update(Message::Exit).unwrap();
    assert_eq!(model.mode, Mode::Table);
    assert_eq!(model.views[0].height, 2);
    assert_eq!(model.views[0].data[0].data.len(), 2);
}

#[test]
fn command_line_takes_raw_keys_only() {
    let mut model = small_model();
    model.update(Message::Command(CommandKind::Search)).unwrap();
    assert_eq!(model.mode, Mode::CommandInput);
    assert_eq!(model.previous_mode, Mode::Table);
    assert_eq!(model.command, CommandKind::Search);
    model.update(Message::MoveDown).unwrap();
    model.update(Message::Help).unwrap();
    model.update(Message::Exit).unwrap();
    assert_eq!(model.mode, Mode::CommandInput);
    assert_eq!(model.views[0].curser_row, 0);
    model.update(key(Key::Char('b'))).unwrap();
    model.update(key(Key::Char('o'))).unwrap();
    let line = model.input.get();
    assert_eq!(line.input, "bo");
    assert_eq!(line.curser_pos, 2);
    assert!(!line.finished);
    model.update(key(Key::Enter)).unwrap();
    assert_eq!(model.mode, Mode::Table);
    assert_eq!(model.views[0].search_results, vec![(1, 1)]);
    assert_eq!(model.views[0].curser_row, 1);
    assert_eq!(model.views[0].curser_column, 1);
}

#[test]
fn command_line_starts_empty_each_time() {
    let mut model = small_model();
    model.update(Message::Command(CommandKind::Search)).unwrap();
    model.update(key(Key::Char('a'))).unwrap();
    model.update(key(Key::Enter)).unwrap();
    model.update(Message::Command(CommandKind::Search)).unwrap();
    let line = model.input.get();
    assert_eq!(line.input, "");
    assert_eq!(line.curser_pos, 0);
    assert!(!line.finished);
    assert!(!line.canceled);
}

#[test]
fn canceled_command_is_not_carried_out() {
    let mut model = small_model();
    model.update(Message::Command(CommandKind::FilterColumn)).unwrap();
    model.update(key(Key::Char('1'))).unwrap();
    model.update(key(Key::Esc)).unwrap();
    assert_eq!(model.mode, Mode::Table);
    assert_eq!(model.views.len(), 1);
    assert!(model.input.get().canceled);
}

#[test]
fn raw_command_changes_nothing() {
    let mut model = small_model();
    model.update(Message::Command(CommandKind::Raw)).unwrap();
    model.update(key(Key::Char('x'))).unwrap();
    model.update(key(Key::Enter)).unwrap();
    assert_eq!(model.mode, Mode::Table);
    assert_eq!(model.views.len(), 1);
    assert_eq!(model.views[0].search_results.len(), 0);
}

#[test]
fn toggle_index_changes_the_layout() {
    let mut model = small_model();
    assert_eq!(model.layout.table_width, 79);
    model.update(Message::ToggleIndex).unwrap();
    assert!(model.views[0].show_index);
    assert_eq!(model.layout.index_width, 3);
    assert_eq!(model.layout.table_width, 75);
    assert_eq!(model.views[0].width, 75);
    assert_eq!(model.views[0].index.data, vec!["1".to_string(), "2".to_string(), "3".to_string()]);
    model.update(Message::ToggleIndex).unwrap();
    assert!(!model.views[0].show_index);
    assert_eq!(model.layout.table_width, 79);
}

#[test]
fn toggles_act_on_the_selected_column() {
    let mut model = small_model();
    model.update(Message::MoveRight).unwrap();
    let initial = model.columns[1].width;
    model.update(Message::ToggleCollapse).unwrap();
    assert_eq!(model.columns[1].status, ColumnStatus::Collapsed);
    assert_eq!(model.columns[0].status, ColumnStatus::Normal);
    assert_eq!(model.views[0].data[1].width, 1);
    model.update(Message::ToggleCollapse).unwrap();
    assert_eq!(model.columns[1].width, initial);
    model.update(Message::ToggleExpand).unwrap();
    assert_eq!(model.columns[1].status, ColumnStatus::Expanded);
    model.update(Message::ToggleExpand).unwrap();
    assert_eq!(model.columns[1].status, ColumnStatus::Normal);
    assert_eq!(model.columns[1].width, initial);
    assert_eq!(model.views[0].data[1].width, initial);
}

#[test]
fn copy_cell_and_copy_row_fill_the_clipboard() {
    let columns = vec![
        model_column(0, "id", &["1", "2"]),
        model_column(1, "note", &["plain", "two words, \"quoted\""]),
    ];
    let info = FileInfo::new(PathBuf::from("m.csv"), 42, Some("csv")).unwrap();
    let mut model = Model::load("m.csv".to_string(), info, columns, model_config(), 80, 24).unwrap();
    model.update(Message::MoveDown).unwrap();
    model.update(Message::MoveRight).unwrap();
    model.update(Message::CopyCell).unwrap();
    assert_eq!(model.clipboard.as_deref(), Some("two words, \"quoted\""));
    model.update(Message::CopyRow).unwrap();
    assert_eq!(model.clipboard.as_deref(), Some("2,\"two words, \"\"quoted\"\"\""));
    model.update(Message::MoveUp).unwrap();
    model.update(Message::CopyRow).unwrap();
    assert_eq!(model.clipboard.as_deref(), Some("1,plain"));
}

#[test]
fn messages_are_counted() {
    let mut model = small_model();
    model.update(Message::MoveDown).unwrap();
    model.update(Message::Help).unwrap();
    model.update(key(Key::Char('x'))).unwrap();
    assert_eq!(model.last_update, 3);
    model.last_update = u64::MAX;
    model.update(Message::Exit).unwrap();
    assert_eq!(model.last_update, 0);
}

#[test]
fn get_column_info_reports_name_and_width() {
    let model = small_model();
    let info = model.get_column_info(1).unwrap();
    assert_eq!(info.idx, 1);
    assert_eq!(info.name, "name");
    assert_eq!(info.width, 5);
    match model.get_column_info(2) {
        Err(TVError::DataIndexingError(text)) => assert_eq!(text, "Column index out of bounds"),
        _ => panic!("an indexing error was expected"),
    }
}

#[test]
fn get_column_data_returns_rows_or_all() {
    let model = small_model();
    let all = model.get_column_data(1, Vec::new()).unwrap();
    assert_eq!(all, vec!["ann", "bob", "cy"]);
    let some = model.get_column_data(1, vec![2, 0, 2]).unwrap();
    assert_eq!(some, vec!["cy", "ann", "cy"]);
}

#[test]
fn get_column_data_names_the_first_missing_row() {
    let model = small_model();
    match model.get_column_data(0, vec![1, 7, 9]) {
        Err(TVError::DataIndexingError(text)) => assert_eq!(text, "Row 7 not found"),
        _ => panic!("an indexing error was expected"),
    }
    match model.get_column_data(5, vec![1]) {
        Err(TVError::DataIndexingError(text)) => assert_eq!(text, "Column index out of bounds"),
        _ => panic!("an indexing error was expected"),
    }
}

#[test]
fn file_type_is_told_from_the_extension() {
    assert_eq!(detect_file_type(Some("csv")).unwrap(), FileType::CSV);
    assert_eq!(detect_file_type(Some("CSV")).unwrap(), FileType::CSV);
    assert_eq!(detect_file_type(Some("Parquet")).unwrap(), FileType::PARQUET);
    assert_eq!(detect_file_type(Some("xlsx")).unwrap(), FileType::XLSX);
    assert!(matches!(detect_file_type(Some("txt")), Err(TVError::UnknownFileType)));
    assert!(matches!(detect_file_type(Some("")), Err(TVError::UnknownFileType)));
    assert!(matches!(detect_file_type(None), Err(TVError::UnknownFileType)));
    assert_eq!(file_type_of("CSV").unwrap(), FileType::CSV);
    assert!(matches!(file_type_of("csv"), Err(TVError::UnknownFileType)));
}

#[test]
fn file_info_needs_a_known_kind() {
    let info = FileInfo::new(PathBuf::from("a.parquet"), 7, Some("parquet")).unwrap();
    assert_eq!(info.file_type, FileType::PARQUET);
    assert_eq!(info.file_size, 7);
    assert_eq!(info.path, PathBuf::from("a.parquet"));
    assert!(matches!(FileInfo::new(PathBuf::from("a"), 7, None), Err(TVError::UnknownFileType)));
}

#[test]
fn load_numbers_the_columns_by_their_place() {
    let columns = vec![
        Model::process_column(7, "a", false, vec![Some("1".to_string())], Vec::new(), &model_config()).unwrap(),
        Model::process_column(7, "b", false, vec![Some("2".to_string())], Vec::new(), &model_config()).unwrap(),
        Model::process_column(0, "c", false, vec![Some("3".to_string())], Vec::new(), &model_config()).unwrap(),
    ];
    let info = FileInfo::new(PathBuf::from("m.csv"), 1, Some("csv")).unwrap();
    let model = Model::load("m.csv".to_string(), info, columns, model_config(), 80, 24).unwrap();
    for place in 0..3 {
        assert_eq!(model.columns[place].idx as usize, place);
        assert_eq!(model.get_column_info(place).unwrap().idx as usize, place);
    }
    assert_eq!(model.get_column_info(2).unwrap().name, "c");
}

#[test]
fn collapse_then_expand_twice_reports_the_same_width() {
    let config = TableConfig { event_poll_time: 100, max_column_width: 40, column_margin: 1, max_header_length: 8 };
    let wide = "x".repeat(50);
    let raw = vec![Some(wide)];
    let columns = vec![Model::process_column(0, "c", false, raw, Vec::new(), &config).unwrap()];
    let info = FileInfo::new(PathBuf::from("m.csv"), 1, Some("csv")).unwrap();
    let mut model = Model::load("m.csv".to_string(), info, columns, config, 80, 24).unwrap();
    let before = model.get_column_info(0).unwrap().width;
    assert_eq!(before, 40);
    for _ in 0..2 {
        model.update(Message::ToggleCollapse).unwrap();
        assert_eq!(model.get_column_info(0).unwrap().width, 1);
        model.update(Message::ToggleExpand).unwrap();
        assert_eq!(model.columns[0].status, ColumnStatus::Normal);
        assert_eq!(model.get_column_info(0).unwrap().width, before);
    }
    model.update(Message::ToggleExpand).unwrap();
    assert_eq!(model.get_column_info(0).unwrap().width, 51);
}

#[test]
fn file_info_from_stat_reports_each_failure() {
    let path = || PathBuf::from("dir/a.csv");
    let info = FileInfo::from_stat(path(), Ok((true, 12)), Some("csv")).unwrap();
    assert_eq!(info.file_size, 12);
    assert_eq!(info.file_type, FileType::CSV);
    assert_eq!(info.path, path());
    assert!(matches!(FileInfo::from_stat(path(), Err(StatFailure::NotFound), Some("csv")), Err(TVError::FileNotFound)));
    assert!(matches!(
        FileInfo::from_stat(path(), Err(StatFailure::PermissionDenied), Some("csv")),
        Err(TVError::PermissionDenied)
    ));
    match FileInfo::from_stat(path(), Err(StatFailure::Other("disk on fire".to_string())), Some("csv")) {
        Err(TVError::IoError(text)) => assert_eq!(text, "disk on fire"),
        _ => panic!("an input/output error was expected"),
    }
    match FileInfo::from_stat(path(), Ok((false, 12)), Some("csv")) {
        Err(TVError::LoadingFailed(text)) => assert_eq!(text, "Not a file!"),
        _ => panic!("a load failure was expected"),
    }
    // a directory with an unknown extension is first of all no file
    assert!(matches!(FileInfo::from_stat(path(), Ok((false, 12)), Some("txt")), Err(TVError::LoadingFailed(_))));
    assert!(matches!(FileInfo::from_stat(path(), Ok((true, 12)), Some("txt")), Err(TVError::UnknownFileType)));
    assert!(matches!(FileInfo::from_stat(path(), Ok((true, 12)), None), Err(TVError::UnknownFileType)));
}
