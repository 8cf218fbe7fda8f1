use std::path::PathBuf;
use tv::column::Column;
use tv::domain::{CommandKind, Key, KeyPress, Message, TableConfig};
use tv::model::{FileInfo, Mode, Model};
use tv::search::{find_matches, first_match_from, SearchStep};

fn search_config() -> TableConfig {
    TableConfig { event_poll_time: 100, max_column_width: 12, column_margin: 1, max_header_length: 8 }
}

fn search_column(idx: usize, name: &str, values: &[&str]) -> Column {
    let raw: Vec<Option<String>> = values.iter().map(|v| Some(v.to_string())).collect();
    Model::process_column(idx, name, false, raw, Vec::new(), &search_config()).unwrap()
}

fn search_model(columns: Vec<Column>) -> Model {
    let info = FileInfo::new(PathBuf::from("s.csv"), 10, Some("csv")).unwrap();
    Model::load("s.csv".to_string(), info, columns, search_config(), 80, 24).unwrap()
}

fn ten_rows() -> Vec<Column> {
    vec![search_column(0, "v", &["a", "b", "x1", "c", "d", "x2", "e", "f", "g", "x3"])]
}

fn press(c: char) -> Message {
    Message::RawKey(KeyPress { code: Key::Char(c), modifiers: 0 })
}

fn press_enter() -> Message {
    Message::RawKey(KeyPress { code: Key::Enter, modifiers: 0 })
}

#[test]
fn find_matches_lists_cells_by_row_then_column() {
    let columns = vec![
        search_column(0, "a", &["fox", "dog", "ox"]),
        search_column(1, "b", &["box", "cat", "Ox"]),
    ];
    let rows: Vec<usize> = vec![0, 1, 2];
    assert_eq!(find_matches(&rows, &columns, "ox", None), vec![(0, 0), (0, 1), (2, 0)]);
    assert_eq!(find_matches(&rows, &columns, "ox", Some(1)), vec![(0, 1)]);
    assert_eq!(find_matches(&rows, &columns, "Ox", None), vec![(2, 1)]);
    assert_eq!(find_matches(&rows, &columns, "zebra", None), vec![]);
    assert_eq!(find_matches(&rows, &columns, "ox", Some(2)), vec![]);
}

#[test]
fn find_matches_speaks_of_view_rows() {
    let columns = vec![search_column(0, "a", &["fox", "dog", "ox"])];
    let rows: Vec<usize> = vec![2, 1, 0];
    assert_eq!(find_matches(&rows, &columns, "fox", None), vec![(2, 0)]);
    let rows: Vec<usize> = vec![0, 0];
    assert_eq!(find_matches(&rows, &columns, "fox", None), vec![(0, 0), (1, 0)]);
}

#[test]
fn empty_pattern_matches_every_cell() {
    let columns = vec![search_column(0, "a", &["fox", ""])];
    let rows: Vec<usize> = vec![0, 1];
    assert_eq!(find_matches(&rows, &columns, "", None), vec![(0, 0), (1, 0)]);
}

#[test]
fn first_match_from_finds_the_first_row_at_or_below() {
    let results = vec![(2, 0), (5, 0), (9, 0)];
    assert_eq!(first_match_from(&results, 0), 0);
    assert_eq!(first_match_from(&results, 2), 0);
    assert_eq!(first_match_from(&results, 3), 1);
    assert_eq!(first_match_from(&results, 6), 2);
    assert_eq!(first_match_from(&results, 9), 2);
    assert_eq!(first_match_from(&results, 10), 0);
    assert_eq!(first_match_from(&Vec::new(), 4), 0);
}

#[test]
fn fresh_search_selects_the_first_match_below_and_next_wraps() {
    let mut model = search_model(ten_rows());
    for _ in 0..6 {
        model.update(Message::MoveDown).unwrap();
    }
    assert_eq!(model.views[0].offset_row + model.views[0].curser_row, 6);
    model.update(Message::Command(CommandKind::Search)).unwrap();
    assert_eq!(model.mode, Mode::CommandInput);
    model.update(press('x')).unwrap();
    assert_eq!(model.mode, Mode::CommandInput);
    model.update(press_enter()).unwrap();
    assert_eq!(model.mode, Mode::Table);
    let view = &model.views[0];
    assert_eq!(view.search_results, vec![(2, 0), (5, 0), (9, 0)]);
    assert_eq!(view.search_idx, 2);
    assert_eq!(view.offset_row + view.curser_row, 9);
    model.update(Message::SearchNext).unwrap();
    let view = &model.views[0];
    assert_eq!(view.search_idx, 0);
    assert_eq!(view.offset_row + view.curser_row, 2);
    model.update(Message::SearchPrevious).unwrap();
    let view = &model.views[0];
    assert_eq!(view.search_idx, 2);
    assert_eq!(view.offset_row + view.curser_row, 9);
    model.update(Message::SearchPrevious).unwrap();
    assert_eq!(model.views[0].offset_row + model.views[0].curser_row, 5);
}

#[test]
fn search_without_a_match_below_wraps_to_the_first() {
    let mut model = search_model(ten_rows());
    model.update(Message::MoveEnd).unwrap();
    let Model { views, columns, .. } = &mut model;
    let count = views[0].search("x1", None, columns);
    assert_eq!(count, 1);
    assert_eq!(views[0].search_idx, 0);
    // the search alone leaves the selection where it is
    assert_eq!(views[0].offset_row + views[0].curser_row, 9);
}

#[test]
fn search_without_matches_clears_the_results_and_keeps_the_cursor() {
    let mut model = search_model(ten_rows());
    model.update(Message::Command(CommandKind::Search)).unwrap();
    model.update(press('x')).unwrap();
    model.update(press_enter()).unwrap();
    assert_eq!(model.views[0].search_results.len(), 3);
    model.update(Message::MoveDown).unwrap();
    let row = model.views[0].offset_row + model.views[0].curser_row;
    model.update(Message::Command(CommandKind::Search)).unwrap();
    model.update(press('q')).unwrap();
    model.update(press_enter()).unwrap();
    assert_eq!(model.mode, Mode::Table);
    assert_eq!(model.views[0].search_results.len(), 0);
    assert_eq!(model.views[0].search_idx, 0);
    assert_eq!(model.views[0].offset_row + model.views[0].curser_row, row);
    model.update(Message::SearchNext).unwrap();
    assert_eq!(model.views[0].offset_row + model.views[0].curser_row, row);
}

#[test]
fn search_step_current_selects_without_moving_on() {
    let mut model = search_model(ten_rows());
    let Model { views, columns, layout, .. } = &mut model;
    assert_eq!(views[0].search("x", None, columns), 3);
    assert!(views[0].search_step(SearchStep::Current, columns, layout));
    assert_eq!(views[0].search_idx, 0);
    assert_eq!(views[0].offset_row + views[0].curser_row, 2);
    assert!(views[0].search_step(SearchStep::Current, columns, layout));
    assert_eq!(views[0].search_idx, 0);
    assert!(views[0].search_step(SearchStep::Next, columns, layout));
    assert_eq!(views[0].search_idx, 1);
    assert_eq!(views[0].offset_row + views[0].curser_row, 5);
}

#[test]
fn search_step_without_matches_does_nothing() {
    let mut model = search_model(ten_rows());
    let Model { views, columns, layout, .. } = &mut model;
    assert!(!views[0].search_step(SearchStep::Next, columns, layout));
    assert_eq!(views[0].offset_row + views[0].curser_row, 0);
}

#[test]
fn column_search_looks_only_at_the_selected_column() {
    let columns = vec![
        search_column(0, "a", &["fox", "dog", "ox"]),
        search_column(1, "b", &["cat", "ox", "hen"]),
    ];
    let mut model = search_model(columns);
    model.update(Message::MoveRight).unwrap();
    model.update(Message::Command(CommandKind::SearchColumn)).unwrap();
    model.update(press('o')).unwrap();
    model.update(press('x')).unwrap();
    model.update(press_enter()).unwrap();
    let view = &model.views[0];
    assert_eq!(view.search_results, vec![(1, 1)]);
    assert_eq!(view.offset_row + view.curser_row, 1);
    assert_eq!(view.offset_column + view.curser_column, 1);
}

#[test]
fn search_starts_from_the_row_selected_when_the_line_was_finished() {
    let mut model = search_model(ten_rows());
    for _ in 0..6 {
        model.update(Message::MoveDown).unwrap();
    }
    model.update(Message::Command(CommandKind::Search)).unwrap();
    model.update(press('x')).unwrap();
    // the terminal shrinks while the line is typed: three rows are left
    model.update(Message::Resize(80, 5)).unwrap();
    assert_eq!(model.views[0].offset_row + model.views[0].curser_row, 6);
    model.update(press_enter()).unwrap();
    assert_eq!(model.mode, Mode::Table);
    let view = &model.views[0];
    assert_eq!(view.height, 3);
    assert_eq!(view.search_results, vec![(2, 0), (5, 0), (9, 0)]);
    assert_eq!(view.search_idx, 2);
    assert_eq!(view.offset_row + view.curser_row, 9);
    assert!(view.curser_row < view.height);
}
