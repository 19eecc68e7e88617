//! Game rules of a small platformer: moving platforms that shuttle along a
//! path, bell-triggered activation, and enemies that charge in a straight line.
//!
//! Everything here works on plain values; the engine glue lives elsewhere.

pub mod platform;
pub mod movement;
pub mod charge;
pub mod stabber;
