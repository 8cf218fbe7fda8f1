use std::path::PathBuf;
use tv::column::Column;
use tv::domain::{Message, TableConfig};
use tv::model::{FileInfo, Mode, Model};
use tv::record::{truncate, RecordView};
use tv::scroll::Scroll;

fn record_config() -> TableConfig {
    TableConfig { event_poll_time: 100, max_column_width: 12, column_margin: 1, max_header_length: 6 }
}

fn record_column(idx: usize, name: &str, values: &[&str]) -> Column {
    let raw: Vec<Option<String>> = values.iter().map(|v| Some(v.to_string())).collect();
    Model::process_column(idx, name, false, raw, Vec::new(), &record_config()).unwrap()
}

fn record_model(height: usize) -> Model {
    let columns = vec![
        record_column(0, "identifier", &["1", "2", "3"]),
        record_column(1, "name", &["ann", "bob", "cy"]),
        record_column(2, "town", &["Rome", "Oslo", "Lima"]),
        record_column(3, "\u{00e9}t\u{00e9}_long_header", &["x", "y", "z"]),
    ];
    let info = FileInfo::new(PathBuf::from("r.csv"), 10, Some("csv")).unwrap();
    Model::load("r.csv".to_string(), info, columns, record_config(), 80, height).unwrap()
}

fn words(values: &[&str]) -> Vec<String> {
    values.iter().map(|v| v.to_string()).collect()
}

#[test]
fn truncate_cuts_after_whole_characters() {
    assert_eq!(truncate(&"identifier".to_string(), 6), "identi");
    assert_eq!(truncate(&"name".to_string(), 6), "name");
    assert_eq!(truncate(&"sixsix".to_string(), 6), "sixsix");
    assert_eq!(truncate(&"\u{00e9}t\u{00e9}".to_string(), 2), "\u{00e9}t");
    assert_eq!(truncate(&"abc".to_string(), 0), "");
}

#[test]
fn enter_opens_the_record_of_the_selected_row() {
    let mut model = record_model(24);
    model.update(Message::ToggleIndex).unwrap();
    model.update(Message::MoveDown).unwrap();
    model.update(Message::Enter).unwrap();
    assert_eq!(model.mode, Mode::Record);
    assert!(!model.views[0].show_index);
    assert_eq!(model.layout.table_width, 79);
    let record = model.record.as_ref().unwrap();
    assert_eq!(record.record_idx, 1);
    assert_eq!(record.headers, words(&["identi", "name", "town", "\u{00e9}t\u{00e9}_lo"]));
    assert_eq!(record.values, words(&["2", "bob", "Oslo", "y"]));
    assert_eq!(record.scroll, Scroll { offset: 0, curser: 0, len: 4, height: 22 });
}

#[test]
fn record_follows_the_row_mapping_of_the_view() {
    let mut model = record_model(24);
    model.update(Message::MoveRight).unwrap();
    model.update(Message::SortDescending).unwrap();
    assert_eq!(*model.views[0].rows, vec![2, 1, 0]);
    model.update(Message::Enter).unwrap();
    assert_eq!(model.record.as_ref().unwrap().values, words(&["3", "cy", "Lima", "z"]));
}

#[test]
fn record_steps_to_next_and_previous_rows() {
    let mut model = record_model(24);
    model.update(Message::Enter).unwrap();
    let expected = [(Message::MoveRight, 1), (Message::MoveRight, 2), (Message::MoveRight, 2), (Message::MoveLeft, 1), (Message::MoveLeft, 0), (Message::MoveLeft, 0)];
    for (message, idx) in expected {
        model.update(message).unwrap();
        assert_eq!(model.record.as_ref().unwrap().record_idx, idx);
    }
    model.update(Message::MoveRight).unwrap();
    assert_eq!(model.record.as_ref().unwrap().values, words(&["2", "bob", "Oslo", "y"]));
}

#[test]
fn record_window_scrolls_over_the_columns() {
    let mut model = record_model(4);
    model.update(Message::Enter).unwrap();
    let record = model.record.as_ref().unwrap();
    assert_eq!(record.scroll.height, 2);
    assert_eq!(record.headers, words(&["identi", "name"]));
    model.update(Message::MoveDown).unwrap();
    model.update(Message::MoveDown).unwrap();
    let record = model.record.as_ref().unwrap();
    assert_eq!((record.scroll.offset, record.scroll.curser), (1, 1));
    assert_eq!(record.headers, words(&["name", "town"]));
    assert_eq!(record.values, words(&["ann", "Rome"]));
    model.update(Message::PageDown).unwrap();
    let record = model.record.as_ref().unwrap();
    assert_eq!((record.scroll.offset, record.scroll.curser), (3, 0));
    assert_eq!(record.values, words(&["x"]));
    model.update(Message::PageUp).unwrap();
    model.update(Message::MoveUp).unwrap();
    let record = model.record.as_ref().unwrap();
    assert_eq!((record.scroll.offset, record.scroll.curser), (0, 0));
}

#[test]
fn record_is_rebuilt_on_resize() {
    let mut model = record_model(24);
    model.update(Message::Enter).unwrap();
    model.update(Message::MoveDown).unwrap();
    model.update(Message::MoveDown).unwrap();
    model.update(Message::MoveDown).unwrap();
    assert_eq!(model.record.as_ref().unwrap().scroll.curser, 3);
    model.update(Message::Resize(80, 4)).unwrap();
    let record = model.record.as_ref().unwrap();
    assert_eq!(record.scroll.height, 2);
    assert_eq!(record.scroll.curser, 1);
    assert_eq!(record.headers.len(), 2);
    assert_eq!(model.mode, Mode::Record);
}

#[test]
fn exit_leaves_the_record_for_the_table() {
    let mut model = record_model(24);
    model.update(Message::Enter).unwrap();
    model.update(Message::Resize(80, 5)).unwrap();
    model.update(Message::Exit).unwrap();
    assert_eq!(model.mode, Mode::Table);
    assert_eq!(model.views[0].height, 3);
    assert_eq!(model.views[0].data[0].data.len(), 3);
}

#[test]
fn record_of_a_missing_row_is_none() {
    let model = record_model(24);
    assert!(RecordView::new(3, &model.views[0].rows, &model.columns, &model.config, 5).is_none());
    assert!(RecordView::new(2, &model.views[0].rows, &model.columns, &model.config, 5).is_some());
}

#[test]
fn scroll_moves_like_a_window() {
    let mut scroll = Scroll::new(5, 3);
    let expected = [(0, 1), (0, 2), (1, 2), (2, 2), (3, 1), (4, 0), (4, 0)];
    for (offset, curser) in expected {
        scroll.move_down(1);
        assert_eq!((scroll.offset, scroll.curser), (offset, curser));
        assert_eq!(scroll.selected(), offset + curser);
    }
    scroll.move_up(10);
    assert_eq!((scroll.offset, scroll.curser), (0, 0));
    scroll.move_down(usize::MAX);
    assert_eq!((scroll.offset, scroll.curser), (0, 2));
    scroll.move_down(usize::MAX);
    assert_eq!((scroll.offset, scroll.curser), (4, 0));
    scroll.resize(0);
    assert_eq!(scroll.window_items(), 0);
    let mut empty = Scroll::new(0, 3);
    empty.move_down(1);
    empty.move_up(1);
    assert_eq!((empty.offset, empty.curser), (0, 0));
}
