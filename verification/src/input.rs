//! Input events and the commands that they stand for.

use vstd::prelude::*;

verus! {

/// The key of a key event.
#[derive(Clone, Copy, Debug, PartialEq, Eq)]
pub enum KeyCode {
    /// A key that types a character.
    Char(char),
    Esc,
    Up,
    Down,
    Left,
    Right,
    /// Any other key.
    Other,
}

/// The modifier keys that were held during a key event.
#[derive(Clone, Copy, Debug, PartialEq, Eq)]
pub struct KeyModifiers {
    pub shift: bool,
    pub control: bool,
    pub alt: bool,
    pub super_key: bool,
    pub hyper: bool,
    pub meta: bool,
}

impl KeyModifiers {
    /// Control is held and no other modifier is.
    pub open spec fn is_control_alone(self) -> bool {
        self.control && !self.shift && !self.alt && !self.super_key && !self.hyper && !self.meta
    }

    /// Whether control is held and no other modifier is.
    pub fn control_alone(&self) -> (alone: bool)
        ensures
            alone == self.is_control_alone(),
    {
        self.control && !self.shift && !self.alt && !self.super_key && !self.hyper && !self.meta
    }
}

/// What happened to the key.
#[derive(Clone, Copy, Debug, PartialEq, Eq)]
pub enum KeyEventKind {
    Press,
    Repeat,
    Release,
}

/// A key event as the terminal reports it.
#[derive(Clone, Copy, Debug, PartialEq, Eq)]
pub struct KeyEvent {
    pub code: KeyCode,
    pub modifiers: KeyModifiers,
    pub kind: KeyEventKind,
}

/// An input event.
#[derive(Clone, Copy, Debug, PartialEq, Eq)]
pub enum Event {
    Key(KeyEvent),
    /// Anything that is not a key event.
    Other,
}

/// What an input event asks of the application.
#[derive(Clone, Copy, Debug, PartialEq, Eq)]
pub enum Command {
    Quit,
    NextRow,
    PreviousRow,
    NextColumn,
    PreviousColumn,
    /// The event is not bound to anything.
    Nothing,
}

/// The command that a pressed key is bound to. The quit keys come first:
/// `q` and Escape with any modifiers, and `c` with control alone. The
/// movement keys count with any modifiers.
pub open spec fn key_command(code: KeyCode, modifiers: KeyModifiers) -> Command {
    if code == KeyCode::Char('q') || code == KeyCode::Esc {
        Command::Quit
    } else if code == KeyCode::Char('c') && modifiers.is_control_alone() {
        Command::Quit
    } else if code == KeyCode::Char('s') || code == KeyCode::Down {
        Command::NextRow
    } else if code == KeyCode::Char('w') || code == KeyCode::Up {
        Command::PreviousRow
    } else if code == KeyCode::Char('d') || code == KeyCode::Right {
        Command::NextColumn
    } else if code == KeyCode::Char('a') || code == KeyCode::Left {
        Command::PreviousColumn
    } else {
        Command::Nothing
    }
}

/// The command that an event stands for. Only a key press stands for one:
/// repeats, releases and all other events are bound to nothing.
pub open spec fn event_command(event: Event) -> Command {
    match event {
        Event::Key(key) => if key.kind == KeyEventKind::Press {
            key_command(key.code, key.modifiers)
        } else {
            Command::Nothing
        },
        Event::Other => Command::Nothing,
    }
}

/// The command that `event` stands for.
pub fn command_for(event: &Event) -> (command: Command)
    ensures
        command == event_command(*event),
{
    match event {
        Event::Key(key) => match key.kind {
            KeyEventKind::Press => match key.code {
                KeyCode::Char('q') | KeyCode::Esc => Command::Quit,
                KeyCode::Char('c') => if key.modifiers.control_alone() {
                    Command::Quit
                } else {
                    Command::Nothing
                },
                KeyCode::Char('s') | KeyCode::Down => Command::NextRow,
                KeyCode::Char('w') | KeyCode::Up => Command::PreviousRow,
                KeyCode::Char('d') | KeyCode::Right => Command::NextColumn,
                KeyCode::Char('a') | KeyCode::Left => Command::PreviousColumn,
                _ => Command::Nothing,
            },
            _ => Command::Nothing,
        },
        Event::Other => Command::Nothing,
    }
}

} // verus!
