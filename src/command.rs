use crate::direction::Direction;
use vstd::prelude::*;

verus! {

/// What the player asks for: to end the round, or to turn the snake.
#[derive(Debug, Clone, Copy, PartialEq, Eq, Structural)]
pub enum Command {
    Quit,
    Turn(Direction),
}

/// A key as the game sees it; every key it does not know is `Other`.
#[derive(Debug, Clone, Copy, PartialEq, Eq, Structural)]
pub enum Key {
    Char(char),
    Up,
    Right,
    Down,
    Left,
    Esc,
    Other,
}

/// The command a key press stands for: `q`, `Q`, escape and control-C quit; the arrow
/// keys and `w`, `d`, `s`, `a` in either case turn; anything else means nothing.
pub open spec fn key_command(key: Key, control: bool) -> Option<Command> {
    match key {
        Key::Esc => Some(Command::Quit),
        Key::Up => Some(Command::Turn(Direction::Up)),
        Key::Right => Some(Command::Turn(Direction::Right)),
        Key::Down => Some(Command::Turn(Direction::Down)),
        Key::Left => Some(Command::Turn(Direction::Left)),
        Key::Other => None,
        Key::Char(c) => if c == 'q' || c == 'Q' {
            Some(Command::Quit)
        } else if c == 'c' || c == 'C' {
            if control {
                Some(Command::Quit)
            } else {
                None
            }
        } else if c == 'w' || c == 'W' {
            Some(Command::Turn(Direction::Up))
        } else if c == 'd' || c == 'D' {
            Some(Command::Turn(Direction::Right))
        } else if c == 's' || c == 'S' {
            Some(Command::Turn(Direction::Down))
        } else if c == 'a' || c == 'A' {
            Some(Command::Turn(Direction::Left))
        } else {
            None
        },
    }
}

/// Maps a key press to a command. `control` tells whether the control modifier,
/// and no other, was held.
pub fn command_for_key(key: Key, control: bool) -> (r: Option<Command>)
    ensures
        r == key_command(key, control),
{
    match key {
        Key::Esc => Some(Command::Quit),
        Key::Up => Some(Command::Turn(Direction::Up)),
        Key::Right => Some(Command::Turn(Direction::Right)),
        Key::Down => Some(Command::Turn(Direction::Down)),
        Key::Left => Some(Command::Turn(Direction::Left)),
        Key::Other => None,
        Key::Char(c) => {
            if c == 'q' || c == 'Q' {
                Some(Command::Quit)
            } else if c == 'c' || c == 'C' {
                if control {
                    Some(Command::Quit)
                } else {
                    None
                }
            } else if c == 'w' || c == 'W' {
                Some(Command::Turn(Direction::Up))
            } else if c == 'd' || c == 'D' {
                Some(Command::Turn(Direction::Right))
            } else if c == 's' || c == 'S' {
                Some(Command::Turn(Direction::Down))
            } else if c == 'a' || c == 'A' {
                Some(Command::Turn(Direction::Left))
            } else {
                None
            }
        },
    }
}

} // verus!
