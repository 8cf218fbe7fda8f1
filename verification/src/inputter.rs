//! The line editor of the command line.

use crate::domain::{Key, KeyPress};
use crate::text::{string_insert, string_pop, width_of};
use vstd::prelude::*;
use vstd::string::*;

verus! {

/// The state of the input line: its text, the cursor and the two flags.
pub struct InputState {
    pub input: Seq<char>,
    pub curser_pos: usize,
    pub input_width: usize,
    pub finished: bool,
    pub canceled: bool,
}

/// The line editor behind the command line.
pub struct Inputter {
    current_input: String,
    curser_pos: usize,
    input_width: usize,
    finished: bool,
    canceled: bool,
}

/// What the input line holds after a key.
#[derive(Debug, Clone)]
pub struct InputResult {
    pub input: String,
    pub finished: bool,
    pub canceled: bool,
    pub curser_pos: usize,
}

/// The number of whole characters before the cursor.
pub open spec fn chars_before(input: Seq<char>, curser_pos: usize) -> int {
    if curser_pos <= input.len() {
        curser_pos as int
    } else {
        input.len() as int
    }
}

impl InputState {
    /// The empty line of a new editor.
    pub open spec fn empty() -> InputState {
        InputState {
            input: Seq::empty(),
            curser_pos: 0,
            input_width: 0,
            finished: false,
            canceled: false,
        }
    }

    /// The empty line, its width kept.
    pub open spec fn cleared(self) -> InputState {
        InputState {
            input: Seq::empty(),
            curser_pos: 0,
            finished: false,
            canceled: false,
            input_width: self.input_width,
        }
    }

    /// The line after the key Enter: finished.
    pub open spec fn entered(self) -> InputState {
        InputState { finished: true, ..self }
    }

    /// The line after the key Esc: empty, finished and canceled.
    pub open spec fn escaped(self) -> InputState {
        InputState { finished: true, canceled: true, ..self.cleared() }
    }

    /// The line after the key Backspace: unless the cursor stands at the
    /// start, the last character is gone and the cursor is one to the left.
    pub open spec fn erased(self) -> InputState {
        if self.curser_pos > 0 {
            InputState {
                input: if self.input.len() > 0 {
                    self.input.drop_last()
                } else {
                    self.input
                },
                curser_pos: (self.curser_pos - 1) as usize,
                ..self
            }
        } else {
            self
        }
    }

    /// The line after the key Left.
    pub open spec fn moved_left(self) -> InputState {
        InputState {
            curser_pos: if self.curser_pos > 0 {
                (self.curser_pos - 1) as usize
            } else {
                0
            },
            ..self
        }
    }

    /// The line after the key Right: the cursor moves one character on,
    /// unless it stands at the end of the text or behind it.
    pub open spec fn moved_right(self) -> InputState {
        if self.curser_pos < self.input.len() {
            InputState { curser_pos: (self.curser_pos + 1) as usize, ..self }
        } else {
            self
        }
    }

    /// The line after the character `ch` is typed: it stands at the cursor, or
    /// at the end where the cursor is behind the end, and the cursor is one to
    /// the right.
    pub open spec fn typed(self, ch: char) -> InputState {
        InputState {
            input: self.input.insert(chars_before(self.input, self.curser_pos), ch),
            curser_pos: (self.curser_pos + 1) as usize,
            ..self
        }
    }

    /// The line after a key press. Enter, Esc, Backspace, Left and Right act
    /// only without a modifier; a character is typed whatever the modifier;
    /// every other key leaves the line as it is.
    pub open spec fn after(self, key: KeyPress) -> InputState {
        if key.modifiers == 0 && key.code == Key::Enter {
            self.entered()
        } else if key.modifiers == 0 && key.code == Key::Esc {
            self.escaped()
        } else if key.modifiers == 0 && key.code == Key::Backspace {
            self.erased()
        } else if key.modifiers == 0 && key.code == Key::Left {
            self.moved_left()
        } else if key.modifiers == 0 && key.code == Key::Right {
            self.moved_right()
        } else {
            match key.code {
                Key::Char(ch) => self.typed(ch),
                _ => self,
            }
        }
    }

    /// The line with the text `s`, and the cursor at its end.
    pub open spec fn with_text(self, s: Seq<char>) -> InputState {
        InputState { input: s, curser_pos: s.len() as usize, ..self }
    }
}

/// A cursor that stands inside the text or at its end does so after every
/// key press.
pub proof fn lemma_cursor_stays_in_text(state: InputState, key: KeyPress)
    requires
        state.curser_pos <= state.input.len(),
        key.code is Char ==> state.curser_pos < usize::MAX,
    ensures
        state.after(key).curser_pos <= state.after(key).input.len(),
{
}

impl InputResult {
    /// The result reports the state `state`.
    pub open spec fn reports(&self, state: InputState) -> bool {
        &&& self.input@ == state.input
        &&& self.finished == state.finished
        &&& self.canceled == state.canceled
        &&& self.curser_pos == state.curser_pos
    }
}

impl View for Inputter {
    type V = InputState;

    closed spec fn view(&self) -> InputState {
        InputState {
            input: self.current_input@,
            curser_pos: self.curser_pos,
            input_width: self.input_width,
            finished: self.finished,
            canceled: self.canceled,
        }
    }
}

impl Inputter {
    /// An empty line.
    pub fn new() -> (line: Inputter)
        ensures
            line@ == InputState::empty(),
    {
        Inputter {
            current_input: String::new(),
            curser_pos: 0,
            input_width: 0,
            finished: false,
            canceled: false,
        }
    }

    /// Applies one key press and reports the line.
    pub fn read(&mut self, key: KeyPress) -> (result: InputResult)
        requires
            key.code is Char ==> old(self)@.curser_pos < usize::MAX,
        ensures
            final(self)@ == old(self)@.after(key),
            result.reports(final(self)@),
    {
        if key.modifiers == 0 {
            match key.code {
                Key::Enter => {
                    return self.enter();
                },
                Key::Esc => {
                    return self.escape();
                },
                Key::Backspace => {
                    return self.backspace();
                },
                Key::Left => {
                    return self.left();
                },
                Key::Right => {
                    return self.right();
                },
                _ => {},
            }
        }
        self.key(key.code, key.modifiers)
    }

    /// Replaces the text by `s` and puts the cursor at its end.
    pub fn set(&mut self, s: &str)
        ensures
            final(self)@ == old(self)@.with_text(s@),
            final(self)@.curser_pos == s@.len(),
    {
        self.current_input = String::from_str(s);
        self.curser_pos = s.unicode_len();
    }

    /// Reports the line.
    pub fn get(&self) -> (result: InputResult)
        ensures
            result.reports(self@),
    {
        InputResult {
            canceled: self.canceled,
            finished: self.finished,
            input: self.current_input.clone(),
            curser_pos: self.curser_pos,
        }
    }

    /// The position of the cursor.
    pub fn cursor(&self) -> (pos: usize)
        ensures
            pos == self@.curser_pos,
    {
        self.curser_pos
    }

    /// Sets the width of the input field.
    pub fn set_width(&mut self, width: usize)
        ensures
            final(self)@ == (InputState { input_width: width, ..old(self)@ }),
    {
        self.input_width = width;
    }

    /// Empties the line and resets both flags.
    pub fn clear(&mut self)
        ensures
            final(self)@ == old(self)@.cleared(),
    {
        self.canceled = false;
        self.finished = false;
        self.current_input = String::new();
        self.curser_pos = 0;
    }

    /// The key Enter: the line is finished.
    pub fn enter(&mut self) -> (result: InputResult)
        ensures
            final(self)@ == old(self)@.entered(),
            result.reports(final(self)@),
    {
        self.finished = true;
        self.get()
    }

    /// The key Esc: the line is emptied, finished and canceled.
    pub fn escape(&mut self) -> (result: InputResult)
        ensures
            final(self)@ == old(self)@.escaped(),
            result.reports(final(self)@),
    {
        self.clear();
        self.canceled = true;
        self.finished = true;
        self.get()
    }

    /// The key Backspace.
    pub fn backspace(&mut self) -> (result: InputResult)
        ensures
            final(self)@ == old(self)@.erased(),
            result.reports(final(self)@),
    {
        if self.curser_pos > 0 {
            string_pop(&mut self.current_input);
            self.curser_pos = self.curser_pos - 1;
        }
        self.get()
    }

    /// The key Left.
    pub fn left(&mut self) -> (result: InputResult)
        ensures
            final(self)@ == old(self)@.moved_left(),
            result.reports(final(self)@),
    {
        self.curser_pos = self.curser_pos.saturating_sub(1);
        self.get()
    }

    /// The key Right.
    pub fn right(&mut self) -> (result: InputResult)
        ensures
            final(self)@ == old(self)@.moved_right(),
            result.reports(final(self)@),
    {
        if self.curser_pos < self.current_input.as_str().unicode_len() {
            self.curser_pos = self.curser_pos + 1;
        }
        self.get()
    }

    /// Any other key: a character is typed at the cursor.
    pub fn key(&mut self, code: Key, _modifier: u8) -> (result: InputResult)
        requires
            code is Char ==> old(self)@.curser_pos < usize::MAX,
        ensures
            final(self)@ == match code {
                Key::Char(ch) => old(self)@.typed(ch),
                _ => old(self)@,
            },
            result.reports(final(self)@),
    {
        if let Key::Char(chr) = code {
            let at: usize = self.getbytepos();
            let ghost k = chars_before(self.current_input@, self.curser_pos);
            assert(at == width_of(self.current_input@.take(k)));
            string_insert(&mut self.current_input, at, chr);
            self.curser_pos = self.curser_pos + 1;
        }
        self.get()
    }

    /// The byte position of the cursor in the text: the width of the whole
    /// characters before it.
    pub fn getbytepos(&self) -> (at: usize)
        ensures
            at == width_of(self@.input.take(chars_before(self@.input, self@.curser_pos))),
    {
        let text: &str = self.current_input.as_str();
        let len: usize = text.unicode_len();
        let k: usize = if self.curser_pos <= len {
            self.curser_pos
        } else {
            len
        };
        let head: &str = text.substring_char(0, k);
        head.len()
    }
}

impl Default for InputResult {
    fn default() -> (result: InputResult)
        ensures
            result.reports(InputState::empty()),
    {
        InputResult { input: String::new(), finished: false, canceled: false, curser_pos: 0 }
    }
}

impl Default for Inputter {
    fn default() -> (line: Inputter)
        ensures
            line@ == InputState::empty(),
    {
        Inputter::new()
    }
}

} // verus!
