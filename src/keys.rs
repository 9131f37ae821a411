use vstd::prelude::*;

verus! {

/// A key press, as far as the bindings tell keys apart.
#[derive(Clone, Copy, Debug, PartialEq, Eq, Structural)]
pub enum Key {
    Char(char),
    Up,
    Down,
    Left,
    Right,
    Enter,
    Other,
}

/// What a bound key asks the application to do.
#[derive(Clone, Copy, Debug, PartialEq, Eq, Structural)]
pub enum Command {
    Quit,
    MoveNext,
    MovePrev,
    MoveRight,
    MoveLeft,
    Activate,
}

/// The bindings: an arrow key or its letter for each direction, `q` to quit
/// and Enter to activate.
pub open spec fn key_command(key: Key) -> Option<Command> {
    match key {
        Key::Char('q') => Some(Command::Quit),
        Key::Down | Key::Char('j') => Some(Command::MoveNext),
        Key::Up | Key::Char('k') => Some(Command::MovePrev),
        Key::Right | Key::Char('l') => Some(Command::MoveRight),
        Key::Left | Key::Char('h') => Some(Command::MoveLeft),
        Key::Enter => Some(Command::Activate),
        _ => None,
    }
}

/// The command bound to `key`, if any.
pub fn command_of(key: Key) -> (r: Option<Command>)
    ensures
        r == key_command(key),
{
    match key {
        Key::Char('q') => Some(Command::Quit),
        Key::Down | Key::Char('j') => Some(Command::MoveNext),
        Key::Up | Key::Char('k') => Some(Command::MovePrev),
        Key::Right | Key::Char('l') => Some(Command::MoveRight),
        Key::Left | Key::Char('h') => Some(Command::MoveLeft),
        Key::Enter => Some(Command::Activate),
        _ => None,
    }
}

} // verus!
