use std::path::PathBuf;
use tv::column::Column;
use tv::domain::{CommandKind, Key, KeyPress, Message, TVError, TableConfig};
use tv::filter::{matching_rows, rows_with_value};
use tv::model::{FileInfo, Mode, Model};

fn filter_config() -> TableConfig {
    TableConfig { event_poll_time: 100, max_column_width: 12, column_margin: 1, max_header_length: 8 }
}

fn filter_column(idx: usize, name: &str, values: &[&str]) -> Column {
    let raw: Vec<Option<String>> = values.iter().map(|v| Some(v.to_string())).collect();
    Model::process_column(idx, name, false, raw, Vec::new(), &filter_config()).unwrap()
}

fn fruit_model() -> Model {
    let columns = vec![
        filter_column(0, "fruit", &["apple", "pear", "grape", "peach", "plum", "apricot"]),
        filter_column(1, "color", &["red", "green", "blue", "pink", "blue", "orange"]),
    ];
    let info = FileInfo::new(PathBuf::from("fruit.csv"), 10, Some("csv")).unwrap();
    Model::load("fruit.csv".to_string(), info, columns, filter_config(), 80, 24).unwrap()
}

fn type_text(model: &mut Model, text: &str) {
    for c in text.chars() {
        model.update(Message::RawKey(KeyPress { code: Key::Char(c), modifiers: 0 })).unwrap();
    }
    model.update(Message::RawKey(KeyPress { code: Key::Enter, modifiers: 0 })).unwrap();
}

#[test]
fn matching_rows_keeps_the_order_of_the_view() {
    let model = fruit_model();
    let rows: Vec<usize> = vec![5, 4, 3, 2, 1, 0];
    assert_eq!(matching_rows(&rows, &model.columns, 0, "ap"), vec![0, 3, 5]);
    assert_eq!(matching_rows(&rows, &model.columns, 0, "pea"), vec![2, 4]);
    assert_eq!(matching_rows(&rows, &model.columns, 0, "kiwi"), Vec::<usize>::new());
    assert_eq!(matching_rows(&rows, &model.columns, 2, "a"), Vec::<usize>::new());
}

#[test]
fn rows_with_value_compares_whole_cells() {
    let model = fruit_model();
    let rows: Vec<usize> = vec![0, 1, 2, 3, 4, 5];
    assert_eq!(rows_with_value(&rows, &model.columns, 1, &"blue".to_string()), vec![2, 4]);
    assert_eq!(rows_with_value(&rows, &model.columns, 1, &"blu".to_string()), Vec::<usize>::new());
    assert_eq!(rows_with_value(&rows, &model.columns, 7, &"blue".to_string()), Vec::<usize>::new());
}

#[test]
fn filtered_view_resolves_view_rows_to_dataset_rows() {
    let mut model = fruit_model();
    model.update(Message::SortDescending).unwrap();
    // plum, pear, peach, grape, apricot, apple
    let parent_rows = model.views[0].rows.to_vec();
    assert_eq!(parent_rows, vec![4, 1, 3, 2, 5, 0]);
    let child = model.views[0].filtered(&vec![1, 2, 5], &model.columns, &model.layout).unwrap();
    assert_eq!(*child.rows, vec![1, 3, 0]);
    assert_eq!(child.name, "F[fruit.csv]");
    assert_eq!(child.offset_row, 0);
    assert_eq!(child.curser_row, 0);
    assert_eq!(child.search_results.len(), 0);
    assert_eq!(child.column_histograms.len(), 0);
    assert_eq!(child.data[0].data, vec!["pear".to_string(), "peach".to_string(), "apple".to_string()]);
    // the parent is untouched
    assert_eq!(*model.views[0].rows, parent_rows);
}

#[test]
fn filtered_view_refuses_rows_outside_the_view() {
    let model = fruit_model();
    let child = model.views[0].filtered(&vec![0, 6], &model.columns, &model.layout);
    assert!(matches!(child, Err(TVError::DataIndexingError(_))));
    let child = model.views[0].filtered(&Vec::new(), &model.columns, &model.layout).unwrap();
    assert_eq!(child.rows.len(), 0);
}

#[test]
fn filter_pushes_a_view_and_exit_restores_the_parent() {
    let mut model = fruit_model();
    model.update(Message::SortDescending).unwrap();
    model.update(Message::MoveDown).unwrap();
    let parent_rows = model.views[0].rows.to_vec();
    let parent_name = model.views[0].name.clone();
    model.update(Message::Command(CommandKind::FilterColumn)).unwrap();
    type_text(&mut model, "ap");
    assert_eq!(model.mode, Mode::Table);
    assert_eq!(model.views.len(), 2);
    // view rows 3 (grape), 4 (apricot) and 5 (apple) hold "ap"
    assert_eq!(*model.views[1].rows, vec![parent_rows[3], parent_rows[4], parent_rows[5]]);
    assert_eq!(*model.views[1].rows, vec![2, 5, 0]);
    assert_eq!(model.views[1].name, "F[fruit.csv]");
    assert_eq!(*model.views[0].rows, parent_rows);
    model.update(Message::Exit).unwrap();
    assert_eq!(model.views.len(), 1);
    assert_eq!(*model.views[0].rows, parent_rows);
    assert_eq!(model.views[0].name, parent_name);
    assert_eq!(model.views[0].offset_row + model.views[0].curser_row, 1);
}

#[test]
fn filters_nest_and_the_root_is_never_popped() {
    let mut model = fruit_model();
    model.update(Message::Command(CommandKind::FilterColumn)).unwrap();
    type_text(&mut model, "p");
    assert_eq!(*model.views[1].rows, vec![0, 1, 2, 3, 4, 5]);
    model.update(Message::Command(CommandKind::FilterColumn)).unwrap();
    type_text(&mut model, "pea");
    assert_eq!(model.views.len(), 3);
    assert_eq!(*model.views[2].rows, vec![1, 3]);
    assert_eq!(model.views[2].name, "F[F[fruit.csv]]");
    model.update(Message::Exit).unwrap();
    model.update(Message::Exit).unwrap();
    assert_eq!(model.views.len(), 1);
    model.update(Message::Exit).unwrap();
    assert_eq!(model.views.len(), 1);
    assert_eq!(*model.views[0].rows, vec![0, 1, 2, 3, 4, 5]);
    assert_eq!(model.mode, Mode::Table);
}

#[test]
fn filter_without_matches_pushes_an_empty_view() {
    let mut model = fruit_model();
    model.update(Message::Command(CommandKind::FilterColumn)).unwrap();
    type_text(&mut model, "kiwi");
    assert_eq!(model.views.len(), 2);
    assert_eq!(model.views[1].rows.len(), 0);
    model.update(Message::MoveDown).unwrap();
    model.update(Message::Enter).unwrap();
    assert_eq!(model.mode, Mode::Table);
    model.update(Message::CopyRow).unwrap();
    assert!(model.clipboard.is_none());
}
