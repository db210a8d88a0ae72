//! The five-way movement intent.
use vstd::prelude::*;

verus! {

/// A requested direction of travel; `Still` asks for no movement.
#[derive(Clone, Copy, Debug, PartialEq, Eq, Structural)]
pub enum Direction {
    Up,
    Down,
    Left,
    Right,
    Still,
}

impl Direction {
    /// Horizontal part of the unit step that this direction stands for.
    pub open spec fn dx(self) -> int {
        match self {
            Direction::Left => -1,
            Direction::Right => 1,
            _ => 0,
        }
    }

    /// Vertical part of the unit step that this direction stands for.
    pub open spec fn dy(self) -> int {
        match self {
            Direction::Up => -1,
            Direction::Down => 1,
            _ => 0,
        }
    }

    /// The unit step of this direction, horizontal part first. The vertical
    /// axis grows downwards.
    pub fn unit_step(self) -> (res: (i64, i64))
        ensures
            res.0 == self.dx(),
            res.1 == self.dy(),
    {
        match self {
            Direction::Up => (0, -1),
            Direction::Down => (0, 1),
            Direction::Left => (-1, 0),
            Direction::Right => (1, 0),
            Direction::Still => (0, 0),
        }
    }
}

} // verus!
