//! The stabber: an enemy that waits for the player, then charges along its
//! direction until it hits a surface.

use vstd::prelude::*;
use crate::charge::ChargeDirection;
use crate::movement::OrthagonalDirection;

verus! {

/// How far the stabber's sprite, drawn facing up, is turned to face its
/// charge direction: in counterclockwise quarter turns, or `None` where the
/// sprite keeps its rotation.
pub open spec fn sprite_turns_spec(direction: OrthagonalDirection) -> Option<i8> {
    match direction {
        OrthagonalDirection::Up => None,
        OrthagonalDirection::Down => Some(2i8),
        OrthagonalDirection::Left => Some(1i8),
        OrthagonalDirection::Right => Some(-1i8),
    }
}

/// The rotation to give a newly placed stabber's sprite so that it faces its
/// charge direction.
pub fn sprite_turns(direction: &ChargeDirection) -> (turns: Option<i8>)
    ensures
        turns == sprite_turns_spec(direction.0),
{
    let mut turns: Option<i8> = None;
    if direction.0 == OrthagonalDirection::Down {
        turns = Some(2);
    }
    if direction.0 == OrthagonalDirection::Left {
        turns = Some(1);
    }
    if direction.0 == OrthagonalDirection::Right {
        turns = Some(-1);
    }
    turns
}

/// A stabber faces the way it charges: its sprite, drawn facing up and
/// turned as `sprite_turns` says (not at all where it says `None`), points
/// in the direction that the charge task drives it.
pub proof fn lemma_sprite_faces_charge(direction: OrthagonalDirection)
    ensures
        match sprite_turns_spec(direction) {
            Some(t) => OrthagonalDirection::Up.turned(t as int) == direction,
            None => OrthagonalDirection::Up == direction,
        },
{
    reveal_with_fuel(OrthagonalDirection::quarter_turns, 4);
    assert((-1int) % 4 == 3);
}

} // verus!
