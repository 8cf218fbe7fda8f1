use std::path::PathBuf;
use tv::clipboard::{quote_field, quote_row};
use tv::controller::Controller;
use tv::domain::{CommandKind, Event, Key, KeyPress, Message, TableConfig};
use tv::model::{FileInfo, Mode, Model};
use tv::table::Table;

fn controller() -> Controller {
    Controller::new(&TableConfig { event_poll_time: 250, max_column_width: 10, column_margin: 1, max_header_length: 8 })
}

fn bare(code: Key) -> KeyPress {
    KeyPress { code, modifiers: 0 }
}

#[test]
fn controller_keeps_the_poll_time() {
    assert_eq!(controller().event_poll_time(), 250);
}

#[test]
fn q_quits_outside_the_command_line() {
    let c = controller();
    for mode in [Mode::Table, Mode::Record, Mode::Histogram, Mode::Popup] {
        assert_eq!(c.handle_key(bare(Key::Char('q')), mode), Some(Message::Quit));
    }
    assert_eq!(
        c.handle_key(bare(Key::Char('q')), Mode::CommandInput),
        Some(Message::RawKey(bare(Key::Char('q'))))
    );
}

#[test]
fn keys_map_to_their_messages() {
    let c = controller();
    let expected = [
        (Key::Up, Message::MoveUp),
        (Key::Down, Message::MoveDown),
        (Key::Left, Message::MoveLeft),
        (Key::Right, Message::MoveRight),
        (Key::PageUp, Message::PageUp),
        (Key::PageDown, Message::PageDown),
        (Key::Home, Message::MoveBeginning),
        (Key::End, Message::MoveEnd),
        (Key::Enter, Message::Enter),
        (Key::Esc, Message::Exit),
        (Key::Char('k'), Message::MoveUp),
        (Key::Char('j'), Message::MoveDown),
        (Key::Char('h'), Message::MoveLeft),
        (Key::Char('l'), Message::MoveRight),
        (Key::Char('g'), Message::MoveBeginning),
        (Key::Char('G'), Message::MoveEnd),
        (Key::Char('0'), Message::MoveFirstColumn),
        (Key::Char('$'), Message::MoveLastColumn),
        (Key::Char('?'), Message::Help),
        (Key::Char('I'), Message::Histogram),
        (Key::Char('#'), Message::ToggleIndex),
        (Key::Char('c'), Message::ToggleCollapse),
        (Key::Char('e'), Message::ToggleExpand),
        (Key::Char('['), Message::SortAscending),
        (Key::Char(']'), Message::SortDescending),
        (Key::Char(':'), Message::Command(CommandKind::Raw)),
        (Key::Char('/'), Message::Command(CommandKind::Search)),
        (Key::Char('*'), Message::Command(CommandKind::SearchColumn)),
        (Key::Char('|'), Message::Command(CommandKind::FilterColumn)),
        (Key::Char('n'), Message::SearchNext),
        (Key::Char('N'), Message::SearchPrevious),
        (Key::Char('y'), Message::CopyCell),
        (Key::Char('Y'), Message::CopyRow),
    ];
    for (code, message) in expected {
        assert_eq!(c.handle_key(bare(code), Mode::Table), Some(message));
    }
}

#[test]
fn unbound_keys_give_no_message() {
    let c = controller();
    assert_eq!(c.handle_key(bare(Key::Char('z')), Mode::Table), None);
    assert_eq!(c.handle_key(bare(Key::Other), Mode::Table), None);
    assert_eq!(c.handle_key(bare(Key::Backspace), Mode::Table), None);
    assert_eq!(c.handle_key(KeyPress { code: Key::Enter, modifiers: 1 }, Mode::Table), None);
    assert_eq!(c.handle_key(KeyPress { code: Key::Char('G'), modifiers: 1 }, Mode::Table), Some(Message::MoveEnd));
}

#[test]
fn command_line_gets_every_key_raw() {
    let c = controller();
    for code in [Key::Enter, Key::Esc, Key::Up, Key::Other, Key::Char('?')] {
        let press = KeyPress { code, modifiers: 3 };
        assert_eq!(c.handle_key(press, Mode::CommandInput), Some(Message::RawKey(press)));
    }
}

#[test]
fn quote_field_wraps_and_doubles() {
    assert_eq!(quote_field(&"plain".to_string()), "plain");
    assert_eq!(quote_field(&"".to_string()), "");
    assert_eq!(quote_field(&"a,b".to_string()), "\"a,b\"");
    assert_eq!(quote_field(&"two words".to_string()), "\"two words\"");
    assert_eq!(quote_field(&"tab\there".to_string()), "\"tab\there\"");
    assert_eq!(quote_field(&"q\"q".to_string()), "q\"\"q");
    assert_eq!(quote_field(&"say \"hi\"".to_string()), "\"say \"\"hi\"\"\"");
    assert_eq!(quote_field(&"\u{00e9}t\u{00e9}".to_string()), "\u{00e9}t\u{00e9}");
}

#[test]
fn quote_row_joins_with_commas() {
    assert_eq!(quote_row(&Vec::new()), "");
    assert_eq!(quote_row(&vec!["a".to_string()]), "a");
    assert_eq!(quote_row(&vec!["a".to_string(), "".to_string(), "b c".to_string()]), "a,,\"b c\"");
}

#[test]
fn table_keeps_its_path() {
    let table = Table::load(PathBuf::from("some/dir/data.csv"));
    assert_eq!(table.get_path(), PathBuf::from("some/dir/data.csv"));
    assert_eq!(table.get_path(), table.get_path());
    assert_eq!(Table::default().get_path(), PathBuf::new());
}

#[test]
fn events_map_to_messages() {
    let config = TableConfig { event_poll_time: 250, max_column_width: 10, column_margin: 1, max_header_length: 8 };
    let info = FileInfo::new(PathBuf::from("e.csv"), 0, Some("csv")).unwrap();
    let mut model = Model::load("e.csv".to_string(), info, Vec::new(), config, 80, 24).unwrap();
    let c = controller();
    let q = bare(Key::Char('q'));
    assert_eq!(c.handle_event(&model, None).unwrap(), None);
    assert_eq!(c.handle_event(&model, Some(Event::Other)).unwrap(), None);
    assert_eq!(c.handle_event(&model, Some(Event::Key { key: q, pressed: true })).unwrap(), Some(Message::Quit));
    assert_eq!(c.handle_event(&model, Some(Event::Key { key: q, pressed: false })).unwrap(), None);
    assert_eq!(c.handle_event(&model, Some(Event::Resize(10, 5))).unwrap(), Some(Message::Resize(10, 5)));
    model.update(Message::Command(CommandKind::Raw)).unwrap();
    assert_eq!(
        c.handle_event(&model, Some(Event::Key { key: q, pressed: true })).unwrap(),
        Some(Message::RawKey(q))
    );
}
