//! The key map: which message a key press or a terminal event stands for.

use crate::domain::{CommandKind, Event, Key, KeyPress, Message, TVError, TableConfig};
use crate::model::{Mode, Model};
use vstd::prelude::*;

verus! {

/// Turns key presses into messages.
pub struct Controller {
    event_poll_time: u64,
}

/// The message that a character key stands for outside the command line.
pub open spec fn char_message(c: char) -> Option<Message> {
    if c == 'q' {
        Some(Message::Quit)
    } else if c == 'k' {
        Some(Message::MoveUp)
    } else if c == 'j' {
        Some(Message::MoveDown)
    } else if c == 'h' {
        Some(Message::MoveLeft)
    } else if c == 'l' {
        Some(Message::MoveRight)
    } else if c == 'g' {
        Some(Message::MoveBeginning)
    } else if c == 'G' {
        Some(Message::MoveEnd)
    } else if c == '0' {
        Some(Message::MoveFirstColumn)
    } else if c == '$' {
        Some(Message::MoveLastColumn)
    } else if c == '?' {
        Some(Message::Help)
    } else if c == 'I' {
        Some(Message::Histogram)
    } else if c == '#' {
        Some(Message::ToggleIndex)
    } else if c == 'c' {
        Some(Message::ToggleCollapse)
    } else if c == 'e' {
        Some(Message::ToggleExpand)
    } else if c == '[' {
        Some(Message::SortAscending)
    } else if c == ']' {
        Some(Message::SortDescending)
    } else if c == ':' {
        Some(Message::Command(CommandKind::Raw))
    } else if c == '/' {
        Some(Message::Command(CommandKind::Search))
    } else if c == '*' {
        Some(Message::Command(CommandKind::SearchColumn))
    } else if c == '|' {
        Some(Message::Command(CommandKind::FilterColumn))
    } else if c == 'n' {
        Some(Message::SearchNext)
    } else if c == 'N' {
        Some(Message::SearchPrevious)
    } else if c == 'y' {
        Some(Message::CopyCell)
    } else if c == 'Y' {
        Some(Message::CopyRow)
    } else {
        None
    }
}

/// The message that a key press stands for in mode `mode`. The command line
/// takes every key as it is; elsewhere a character stands for its message
/// whatever the modifier, and the other keys stand for theirs without one.
pub open spec fn key_message(key: KeyPress, mode: Mode) -> Option<Message> {
    if mode == Mode::CommandInput {
        Some(Message::RawKey(key))
    } else {
        match key.code {
            Key::Char(c) => char_message(c),
            _ => if key.modifiers != 0 {
                None
            } else {
                match key.code {
                    Key::Enter => Some(Message::Enter),
                    Key::Esc => Some(Message::Exit),
                    Key::Left => Some(Message::MoveLeft),
                    Key::Right => Some(Message::MoveRight),
                    Key::Up => Some(Message::MoveUp),
                    Key::Down => Some(Message::MoveDown),
                    Key::PageUp => Some(Message::PageUp),
                    Key::PageDown => Some(Message::PageDown),
                    Key::Home => Some(Message::MoveBeginning),
                    Key::End => Some(Message::MoveEnd),
                    _ => None,
                }
            },
        }
    }
}

/// The message that an event of the terminal stands for in mode `mode`: a key
/// that went down stands for its message, a new size for a resize.
pub open spec fn event_message(event: Option<Event>, mode: Mode) -> Option<Message> {
    match event {
        Some(Event::Key { key, pressed }) => if pressed {
            key_message(key, mode)
        } else {
            None
        },
        Some(Event::Resize(width, height)) => Some(Message::Resize(width, height)),
        _ => None,
    }
}

impl Controller {
    /// The bound of one wait for an input event, in milliseconds.
    pub closed spec fn poll_time(&self) -> u64 {
        self.event_poll_time
    }

    /// A controller with the poll time of `cfg`.
    pub fn new(cfg: &TableConfig) -> (controller: Self)
        ensures
            controller.poll_time() == cfg.event_poll_time,
    {
        Self { event_poll_time: cfg.event_poll_time }
    }

    /// The bound of one wait for an input event, in milliseconds.
    pub fn event_poll_time(&self) -> (time: u64)
        ensures
            time == self.poll_time(),
    {
        self.event_poll_time
    }

    /// Maps what one wait for an event brought, if anything, to the message
    /// it stands for in the mode of `model`. No event fails.
    pub fn handle_event(&self, model: &Model, event: Option<Event>) -> (message: Result<
        Option<Message>,
        TVError,
    >)
        ensures
            message matches Ok(m) && m == event_message(event, model.mode),
    {
        match event {
            Some(Event::Key { key, pressed }) => {
                if pressed {
                    Ok(self.handle_key(key, model.mode))
                } else {
                    Ok(None)
                }
            },
            Some(Event::Resize(width, height)) => Ok(Some(Message::Resize(width, height))),
            _ => Ok(None),
        }
    }

    /// Maps a key press to the message it stands for in mode `mode`, if any.
    pub fn handle_key(&self, key: KeyPress, mode: Mode) -> (message: Option<Message>)
        ensures
            message == key_message(key, mode),
    {
        if let Mode::CommandInput = mode {
            return Some(Message::RawKey(key));
        }
        match key.code {
            Key::Char(c) => Self::handle_char(c),
            Key::Enter => Self::plain(key, Message::Enter),
            Key::Esc => Self::plain(key, Message::Exit),
            Key::Left => Self::plain(key, Message::MoveLeft),
            Key::Right => Self::plain(key, Message::MoveRight),
            Key::Up => Self::plain(key, Message::MoveUp),
            Key::Down => Self::plain(key, Message::MoveDown),
            Key::PageUp => Self::plain(key, Message::PageUp),
            Key::PageDown => Self::plain(key, Message::PageDown),
            Key::Home => Self::plain(key, Message::MoveBeginning),
            Key::End => Self::plain(key, Message::MoveEnd),
            _ => None,
        }
    }

    /// `message`, where the key was pressed without a modifier.
    fn plain(key: KeyPress, message: Message) -> (out: Option<Message>)
        ensures
            out == if key.modifiers == 0 {
                Some(message)
            } else {
                None
            },
    {
        if key.modifiers == 0 {
            Some(message)
        } else {
            None
        }
    }

    /// Maps a character key to the message it stands for.
    fn handle_char(c: char) -> (message: Option<Message>)
        ensures
            message == char_message(c),
    {
        if c == 'q' {
            Some(Message::Quit)
        } else if c == 'k' {
            Some(Message::MoveUp)
        } else if c == 'j' {
            Some(Message::MoveDown)
        } else if c == 'h' {
            Some(Message::MoveLeft)
        } else if c == 'l' {
            Some(Message::MoveRight)
        } else if c == 'g' {
            Some(Message::MoveBeginning)
        } else if c == 'G' {
            Some(Message::MoveEnd)
        } else if c == '0' {
            Some(Message::MoveFirstColumn)
        } else if c == '$' {
            Some(Message::MoveLastColumn)
        } else if c == '?' {
            Some(Message::Help)
        } else if c == 'I' {
            Some(Message::Histogram)
        } else if c == '#' {
            Some(Message::ToggleIndex)
        } else if c == 'c' {
            Some(Message::ToggleCollapse)
        } else if c == 'e' {
            Some(Message::ToggleExpand)
        } else if c == '[' {
            Some(Message::SortAscending)
        } else if c == ']' {
            Some(Message::SortDescending)
        } else if c == ':' {
            Some(Message::Command(CommandKind::Raw))
        } else if c == '/' {
            Some(Message::Command(CommandKind::Search))
        } else if c == '*' {
            Some(Message::Command(CommandKind::SearchColumn))
        } else if c == '|' {
            Some(Message::Command(CommandKind::FilterColumn))
        } else if c == 'n' {
            Some(Message::SearchNext)
        } else if c == 'N' {
            Some(Message::SearchPrevious)
        } else if c == 'y' {
            Some(Message::CopyCell)
        } else if c == 'Y' {
            Some(Message::CopyRow)
        } else {
            None
        }
    }
}

} // verus!
