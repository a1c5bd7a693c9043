use vstd::prelude::*;
use crate::editor::key::KeyCode;

verus! {

#[derive(Clone, Copy, Debug, PartialEq, Eq, Structural)]
pub enum Direction {
    Up,
    Down,
    Left,
    Right,
}

impl Direction {
    /// The direction that an arrow key names, if `key` is an arrow key.
    pub open spec fn of_key(key: KeyCode) -> Option<Direction> {
        match key {
            KeyCode::Up => Some(Direction::Up),
            KeyCode::Down => Some(Direction::Down),
            KeyCode::Left => Some(Direction::Left),
            KeyCode::Right => Some(Direction::Right),
            _ => None,
        }
    }

    /// The direction of an arrow key. Only arrow keys have one.
    pub fn from(value: KeyCode) -> (dir: Direction)
        requires
            Self::of_key(value).is_some(),
        ensures
            Self::of_key(value) == Some(dir),
    {
        match value {
            KeyCode::Up => Direction::Up,
            KeyCode::Down => Direction::Down,
            KeyCode::Left => Direction::Left,
            _ => Direction::Right,
        }
    }

    pub open spec fn is_horizontal(self) -> bool {
        self == Direction::Left || self == Direction::Right
    }

    pub open spec fn is_vertical(self) -> bool {
        self == Direction::Up || self == Direction::Down
    }
}

} // verus!
