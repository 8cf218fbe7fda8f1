use tv::domain::{Key, KeyPress};
use tv::inputter::Inputter;

fn plain(code: Key) -> KeyPress {
    KeyPress { code, modifiers: 0 }
}

fn typed(line: &mut Inputter, text: &str) {
    for c in text.chars() {
        line.read(plain(Key::Char(c)));
    }
}

#[test]
fn new_line_is_empty() {
    let line = Inputter::new();
    let state = line.get();
    assert_eq!(state.input, "");
    assert_eq!(state.curser_pos, 0);
    assert!(!state.finished);
    assert!(!state.canceled);
    let state = Inputter::default().get();
    assert_eq!(state.input, "");
    assert_eq!(state.curser_pos, 0);
}

#[test]
fn typing_appends_and_moves_the_cursor() {
    let mut line = Inputter::new();
    let state = line.read(plain(Key::Char('a')));
    assert_eq!(state.input, "a");
    assert_eq!(state.curser_pos, 1);
    typed(&mut line, "bc");
    let state = line.get();
    assert_eq!(state.input, "abc");
    assert_eq!(state.curser_pos, 3);
    assert_eq!(line.cursor(), 3);
}

#[test]
fn typing_inserts_at_the_cursor() {
    let mut line = Inputter::new();
    typed(&mut line, "abc");
    line.read(plain(Key::Left));
    let state = line.read(plain(Key::Left));
    assert_eq!(state.curser_pos, 1);
    let state = line.read(plain(Key::Char('X')));
    assert_eq!(state.input, "aXbc");
    assert_eq!(state.curser_pos, 2);
}

#[test]
fn typing_counts_characters_not_bytes() {
    let mut line = Inputter::new();
    typed(&mut line, "\u{00e9}a");
    assert_eq!(line.get().input, "\u{00e9}a");
    assert_eq!(line.get().curser_pos, 2);
    line.read(plain(Key::Left));
    assert_eq!(line.getbytepos(), 2);
    let state = line.read(plain(Key::Char('\u{4e2d}')));
    assert_eq!(state.input, "\u{00e9}\u{4e2d}a");
    assert_eq!(line.getbytepos(), 5);
}

#[test]
fn a_character_is_typed_with_any_modifier() {
    let mut line = Inputter::new();
    let state = line.read(KeyPress { code: Key::Char('A'), modifiers: 1 });
    assert_eq!(state.input, "A");
    assert_eq!(state.curser_pos, 1);
}

#[test]
fn special_keys_with_a_modifier_do_nothing() {
    let mut line = Inputter::new();
    typed(&mut line, "ab");
    for code in [Key::Enter, Key::Esc, Key::Backspace, Key::Left, Key::Right] {
        let state = line.read(KeyPress { code, modifiers: 2 });
        assert_eq!(state.input, "ab");
        assert_eq!(state.curser_pos, 2);
        assert!(!state.finished);
        assert!(!state.canceled);
    }
    for code in [Key::Up, Key::Down, Key::PageUp, Key::PageDown, Key::Home, Key::End, Key::Other] {
        let state = line.read(plain(code));
        assert_eq!(state.input, "ab");
        assert_eq!(state.curser_pos, 2);
    }
}

#[test]
fn backspace_takes_the_last_character() {
    let mut line = Inputter::new();
    typed(&mut line, "abc");
    let state = line.read(plain(Key::Backspace));
    assert_eq!(state.input, "ab");
    assert_eq!(state.curser_pos, 2);
    line.read(plain(Key::Left));
    line.read(plain(Key::Left));
    let state = line.read(plain(Key::Backspace));
    // at the start nothing is erased
    assert_eq!(state.input, "ab");
    assert_eq!(state.curser_pos, 0);
}

#[test]
fn left_and_right_stay_inside_the_text() {
    let mut line = Inputter::new();
    typed(&mut line, "ab");
    assert_eq!(line.read(plain(Key::Right)).curser_pos, 2);
    assert_eq!(line.read(plain(Key::Left)).curser_pos, 1);
    assert_eq!(line.read(plain(Key::Left)).curser_pos, 0);
    assert_eq!(line.read(plain(Key::Left)).curser_pos, 0);
    assert_eq!(line.read(plain(Key::Right)).curser_pos, 1);
    assert_eq!(line.read(plain(Key::Right)).curser_pos, 2);
    assert_eq!(line.read(plain(Key::Right)).curser_pos, 2);
}

#[test]
fn enter_finishes_the_line() {
    let mut line = Inputter::new();
    typed(&mut line, "go");
    let state = line.read(plain(Key::Enter));
    assert!(state.finished);
    assert!(!state.canceled);
    assert_eq!(state.input, "go");
    assert_eq!(state.curser_pos, 2);
}

#[test]
fn escape_cancels_and_empties_the_line() {
    let mut line = Inputter::new();
    typed(&mut line, "go");
    let state = line.read(plain(Key::Esc));
    assert!(state.finished);
    assert!(state.canceled);
    assert_eq!(state.input, "");
    assert_eq!(state.curser_pos, 0);
}

#[test]
fn clear_resets_text_cursor_and_flags() {
    let mut line = Inputter::new();
    typed(&mut line, "go");
    line.read(plain(Key::Esc));
    line.clear();
    let state = line.get();
    assert!(!state.finished);
    assert!(!state.canceled);
    assert_eq!(state.input, "");
    assert_eq!(state.curser_pos, 0);
}

#[test]
fn set_replaces_the_text_and_puts_the_cursor_at_its_end() {
    let mut line = Inputter::new();
    line.set("hello");
    let state = line.get();
    assert_eq!(state.input, "hello");
    assert_eq!(state.curser_pos, 5);
    line.set("ab");
    let state = line.get();
    assert_eq!(state.input, "ab");
    assert_eq!(state.curser_pos, 2);
    let state = line.read(plain(Key::Char('c')));
    assert_eq!(state.input, "abc");
    assert_eq!(state.curser_pos, 3);
    assert_eq!(line.getbytepos(), 3);
}

#[test]
fn set_counts_characters_not_bytes() {
    let mut line = Inputter::new();
    line.set("\u{00e9}");
    assert_eq!(line.get().curser_pos, 1);
    typed(&mut line, "abc");
    line.set("\u{4e2d}\u{00e9}");
    let state = line.get();
    assert_eq!(state.input, "\u{4e2d}\u{00e9}");
    assert_eq!(state.curser_pos, 2);
    assert!(!state.finished);
    assert!(!state.canceled);
    line.set("");
    assert_eq!(line.get().curser_pos, 0);
}

#[test]
fn right_stops_at_the_last_character() {
    let mut line = Inputter::new();
    typed(&mut line, "\u{00e9}");
    assert_eq!(line.read(plain(Key::Right)).curser_pos, 1);
    line.read(plain(Key::Left));
    assert_eq!(line.read(plain(Key::Right)).curser_pos, 1);
    let state = line.read(plain(Key::Right));
    assert_eq!(state.curser_pos, 1);
    assert_eq!(state.input, "\u{00e9}");
    assert!(!state.finished);
}

#[test]
fn set_width_keeps_the_line() {
    let mut line = Inputter::new();
    typed(&mut line, "ab");
    line.set_width(40);
    let state = line.get();
    assert_eq!(state.input, "ab");
    assert_eq!(state.curser_pos, 2);
}

#[test]
fn key_handlers_can_be_called_directly() {
    let mut line = Inputter::new();
    line.key(Key::Char('a'), 0);
    line.key(Key::Other, 0);
    line.key(Key::Char('b'), 4);
    assert_eq!(line.get().input, "ab");
    assert_eq!(line.left().curser_pos, 1);
    assert_eq!(line.right().curser_pos, 2);
    assert_eq!(line.backspace().input, "a");
    assert!(line.enter().finished);
    assert!(line.escape().canceled);
}
