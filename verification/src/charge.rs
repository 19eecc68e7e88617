//! The "charge straight" task: an enemy runs at full speed along one axis.

use vstd::prelude::*;
use crate::movement::OrthagonalDirection;

verus! {

/// The direction an enemy charges in, as set in the level.
#[derive(Clone, Copy, Debug, PartialEq, Eq, Structural)]
pub struct ChargeDirection(pub OrthagonalDirection);

/// A task that drives its enemy straight along one direction.
#[derive(Clone, Copy, Debug, PartialEq, Eq, Structural)]
pub struct ChargeStraight {
    pub direction: OrthagonalDirection,
}

impl From<&ChargeDirection> for ChargeStraight {
    fn from(value: &ChargeDirection) -> (task: Self) {
        ChargeStraight { direction: value.0 }
    }
}

impl vstd::std_specs::convert::FromSpecImpl<&ChargeDirection> for ChargeStraight {
    open spec fn obeys_from_spec() -> bool {
        true
    }

    open spec fn from_spec(v: &ChargeDirection) -> ChargeStraight {
        ChargeStraight { direction: v.0 }
    }
}

impl ChargeStraight {
    /// The signs of the velocity the task asks of its enemy, per axis: the
    /// enemy's speed times this vector is its intended velocity, y upward.
    pub fn velocity_signs(&self) -> (signs: (i8, i8))
        ensures
            (signs.0 as int, signs.1 as int) == self.direction.unit(),
    {
        match self.direction {
            OrthagonalDirection::Up => (0, 1),
            OrthagonalDirection::Down => (0, -1),
            OrthagonalDirection::Right => (1, 0),
            OrthagonalDirection::Left => (-1, 0),
        }
    }
}

} // verus!
