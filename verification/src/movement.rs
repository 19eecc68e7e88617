//! Directions on the level's grid.

use vstd::prelude::*;

verus! {

/// One of the four directions along the axes of the grid.
#[derive(Clone, Copy, Debug, PartialEq, Eq, Structural)]
pub enum OrthagonalDirection {
    Up,
    Down,
    Left,
    Right,
}

impl OrthagonalDirection {
    /// The unit vector of this direction, with y growing upward.
    pub open spec fn unit(self) -> (int, int) {
        match self {
            OrthagonalDirection::Up => (0, 1),
            OrthagonalDirection::Down => (0, -1),
            OrthagonalDirection::Right => (1, 0),
            OrthagonalDirection::Left => (-1, 0),
        }
    }

    /// This direction turned a quarter turn counterclockwise.
    pub open spec fn quarter_turn(self) -> OrthagonalDirection {
        match self {
            OrthagonalDirection::Up => OrthagonalDirection::Left,
            OrthagonalDirection::Left => OrthagonalDirection::Down,
            OrthagonalDirection::Down => OrthagonalDirection::Right,
            OrthagonalDirection::Right => OrthagonalDirection::Up,
        }
    }

    /// This direction turned `n` quarter turns counterclockwise.
    pub open spec fn quarter_turns(self, n: nat) -> OrthagonalDirection
        decreases n,
    {
        if n == 0 {
            self
        } else {
            self.quarter_turn().quarter_turns((n - 1) as nat)
        }
    }

    /// This direction turned `turns` quarter turns counterclockwise, or
    /// clockwise where `turns` is negative.
    pub open spec fn turned(self, turns: int) -> OrthagonalDirection {
        self.quarter_turns((turns % 4) as nat)
    }
}

} // verus!
