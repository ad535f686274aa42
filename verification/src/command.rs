//! What the user can ask of the editor, and which key asks for what.

use vstd::prelude::*;
use crate::size::Size;

verus! {

/// A key of the keyboard, as far as the editor tells keys apart.
#[derive(Clone, Copy, Debug, PartialEq, Eq, Structural)]
pub enum Key {
    Char(char),
    Tab,
    Enter,
    Backspace,
    Delete,
    Left,
    Right,
    Up,
    Down,
    Home,
    End,
    PageUp,
    PageDown,
    Esc,
    Other,
}

/// The modifier keys held down with a key: none (`Plain`), shift alone, control alone, or
/// anything else.
#[derive(Clone, Copy, Debug, PartialEq, Eq, Structural)]
pub enum Modifiers {
    Plain,
    Shift,
    Control,
    Other,
}

/// What happened to a key.
#[derive(Clone, Copy, Debug, PartialEq, Eq, Structural)]
pub enum KeyKind {
    Press,
    Repeat,
    Release,
}

/// A key event.
#[derive(Clone, Copy, Debug, PartialEq, Eq, Structural)]
pub struct KeyPress {
    pub code: Key,
    pub modifiers: Modifiers,
    pub kind: KeyKind,
}

/// What the terminal reports.
#[derive(Clone, Copy, Debug, PartialEq, Eq, Structural)]
pub enum InputEvent {
    Key(KeyPress),
    /// The terminal has a new size, given as columns and rows.
    Resize(u16, u16),
    Other,
}

/// The event asks for nothing that the editor knows of.
#[derive(Clone, Copy, Debug, PartialEq, Eq, Structural)]
pub struct Unsupported;

/// Moving the cursor.
#[derive(Clone, Copy, Debug, PartialEq, Eq, Structural)]
pub enum MoveCommand {
    Up,
    Down,
    Left,
    Right,
    PageUp,
    PageDown,
    Home,
    End,
}

/// Changing the text at the cursor.
#[derive(Clone, Copy, Debug, PartialEq, Eq, Structural)]
pub enum EditCommand {
    Insert(char),
    InsertNewline,
    DeleteBackward,
    DeleteForward,
}

/// What concerns the editor as a whole.
#[derive(Clone, Copy, Debug, PartialEq, Eq, Structural)]
pub enum SystemCommand {
    Save,
    Resize(Size),
    Quit,
    Dismiss,
}

/// Any command.
#[derive(Clone, Copy, Debug, PartialEq, Eq, Structural)]
pub enum Command {
    Move(MoveCommand),
    Edit(EditCommand),
    System(SystemCommand),
}

/// The move that a key asks for: the arrow keys, home, end and the page keys, each
/// without any modifier.
pub open spec fn move_of(event: KeyPress) -> Option<MoveCommand> {
    if event.modifiers == Modifiers::Plain {
        match event.code {
            Key::Left => Some(MoveCommand::Left),
            Key::Right => Some(MoveCommand::Right),
            Key::Up => Some(MoveCommand::Up),
            Key::Down => Some(MoveCommand::Down),
            Key::Home => Some(MoveCommand::Home),
            Key::End => Some(MoveCommand::End),
            Key::PageUp => Some(MoveCommand::PageUp),
            Key::PageDown => Some(MoveCommand::PageDown),
            _ => None,
        }
    } else {
        None
    }
}

/// The edit that a key asks for: a character, alone or with shift, is put in; the
/// tab key puts in a tab, the enter key breaks the line, backspace deletes backward
/// and delete deletes forward, each without any modifier.
pub open spec fn edit_of(event: KeyPress) -> Option<EditCommand> {
    match (event.code, event.modifiers) {
        (Key::Char(c), Modifiers::Plain) => Some(EditCommand::Insert(c)),
        (Key::Char(c), Modifiers::Shift) => Some(EditCommand::Insert(c)),
        (Key::Tab, Modifiers::Plain) => Some(EditCommand::Insert('\t')),
        (Key::Enter, Modifiers::Plain) => Some(EditCommand::InsertNewline),
        (Key::Backspace, Modifiers::Plain) => Some(EditCommand::DeleteBackward),
        (Key::Delete, Modifiers::Plain) => Some(EditCommand::DeleteForward),
        _ => None,
    }
}

/// What a key asks of the editor as a whole: control with `q` quits, control with
/// `s` saves, escape without any modifier dismisses.
pub open spec fn system_of(event: KeyPress) -> Option<SystemCommand> {
    if event.modifiers == Modifiers::Control {
        match event.code {
            Key::Char('q') => Some(SystemCommand::Quit),
            Key::Char('s') => Some(SystemCommand::Save),
            _ => None,
        }
    } else if event.modifiers == Modifiers::Plain && event.code == Key::Esc {
        Some(SystemCommand::Dismiss)
    } else {
        None
    }
}

/// The command that an event asks for: for a key a move, else an edit, else what
/// concerns the editor as a whole; for a new size of the terminal, to take that
/// size.
pub open spec fn command_of(event: InputEvent) -> Option<Command> {
    match event {
        InputEvent::Key(key) => match move_of(key) {
            Some(command) => Some(Command::Move(command)),
            None => match edit_of(key) {
                Some(command) => Some(Command::Edit(command)),
                None => match system_of(key) {
                    Some(command) => Some(Command::System(command)),
                    None => None,
                },
            },
        },
        InputEvent::Resize(width, height) => Some(
            Command::System(
                SystemCommand::Resize(Size { height: height as usize, width: width as usize }),
            ),
        ),
        InputEvent::Other => None,
    }
}

/// `Ok` of what was found, or `Err` where nothing was.
pub open spec fn found<T>(command: Option<T>) -> Result<T, Unsupported> {
    match command {
        Some(c) => Ok(c),
        None => Err(Unsupported),
    }
}

impl MoveCommand {
    /// The move that `event` asks for.
    pub fn try_from(event: KeyPress) -> (result: Result<MoveCommand, Unsupported>)
        ensures
            result == found(move_of(event)),
    {
        let KeyPress { code, modifiers, .. } = event;
        match modifiers {
            Modifiers::Plain => match code {
                Key::Left => Ok(MoveCommand::Left),
                Key::Right => Ok(MoveCommand::Right),
                Key::Up => Ok(MoveCommand::Up),
                Key::Down => Ok(MoveCommand::Down),
                Key::Home => Ok(MoveCommand::Home),
                Key::End => Ok(MoveCommand::End),
                Key::PageUp => Ok(MoveCommand::PageUp),
                Key::PageDown => Ok(MoveCommand::PageDown),
                _ => Err(Unsupported),
            },
            _ => Err(Unsupported),
        }
    }
}

impl EditCommand {
    /// The edit that `event` asks for.
    pub fn try_from(event: KeyPress) -> (result: Result<EditCommand, Unsupported>)
        ensures
            result == found(edit_of(event)),
    {
        match (event.code, event.modifiers) {
            (Key::Char(c), Modifiers::Plain) => Ok(EditCommand::Insert(c)),
            (Key::Char(c), Modifiers::Shift) => Ok(EditCommand::Insert(c)),
            (Key::Tab, Modifiers::Plain) => Ok(EditCommand::Insert('\t')),
            (Key::Enter, Modifiers::Plain) => Ok(EditCommand::InsertNewline),
            (Key::Backspace, Modifiers::Plain) => Ok(EditCommand::DeleteBackward),
            (Key::Delete, Modifiers::Plain) => Ok(EditCommand::DeleteForward),
            _ => Err(Unsupported),
        }
    }
}

impl SystemCommand {
    /// What `event` asks of the editor as a whole.
    pub fn try_from(event: KeyPress) -> (result: Result<SystemCommand, Unsupported>)
        ensures
            result == found(system_of(event)),
    {
        let KeyPress { code, modifiers, .. } = event;
        match modifiers {
            Modifiers::Control => match code {
                Key::Char(c) => if c == 'q' {
                    Ok(SystemCommand::Quit)
                } else if c == 's' {
                    Ok(SystemCommand::Save)
                } else {
                    Err(Unsupported)
                },
                _ => Err(Unsupported),
            },
            Modifiers::Plain => match code {
                Key::Esc => Ok(SystemCommand::Dismiss),
                _ => Err(Unsupported),
            },
            _ => Err(Unsupported),
        }
    }
}

impl Command {
    /// The command that `event` asks for.
    pub fn try_from(event: InputEvent) -> (result: Result<Command, Unsupported>)
        ensures
            result == found(command_of(event)),
    {
        match event {
            InputEvent::Key(key_event) => match MoveCommand::try_from(key_event) {
                Ok(command) => Ok(Command::Move(command)),
                Err(_) => match EditCommand::try_from(key_event) {
                    Ok(command) => Ok(Command::Edit(command)),
                    Err(_) => match SystemCommand::try_from(key_event) {
                        Ok(command) => Ok(Command::System(command)),
                        Err(_) => Err(Unsupported),
                    },
                },
            },
            InputEvent::Resize(width, height) => Ok(
                Command::System(
                    SystemCommand::Resize(Size { height: height as usize, width: width as usize }),
                ),
            ),
            InputEvent::Other => Err(Unsupported),
        }
    }
}

} // verus!
