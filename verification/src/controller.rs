//! Key-state to facing: four directional key flags are decoded into one of
//! the eight facings, or none when the combination is ambiguous or empty.

use vstd::prelude::*;
use crate::Direction;

verus! {

/// The four directional keys, pressed or not.
#[derive(Clone, Copy, Debug, PartialEq, Eq, Structural, Default)]
pub struct ControllerDirectionState {
    pub up: bool,
    pub left: bool,
    pub down: bool,
    pub right: bool,
}

/// The facing a key combination decodes to: the four cardinal keys alone,
/// the four adjacent two-key chords, and nothing for every other combination
/// (opposing keys, three or more keys, or none).
pub open spec fn facing_of(s: ControllerDirectionState) -> Option<Direction> {
    match (s.up, s.left, s.down, s.right) {
        (true, false, false, false) => Some(Direction::North),
        (true, false, false, true) => Some(Direction::NorthEast),
        (false, false, false, true) => Some(Direction::East),
        (false, false, true, true) => Some(Direction::SouthEast),
        (false, false, true, false) => Some(Direction::South),
        (false, true, true, false) => Some(Direction::SouthWest),
        (false, true, false, false) => Some(Direction::West),
        (true, true, false, false) => Some(Direction::NorthWest),
        _ => None,
    }
}

impl ControllerDirectionState {
    /// No key pressed.
    pub fn new() -> (r: ControllerDirectionState)
        ensures
            !r.up,
            !r.left,
            !r.down,
            !r.right,
    {
        ControllerDirectionState { up: false, left: false, down: false, right: false }
    }

    /// Decodes the pressed keys into a facing.
    pub fn get_facing(&self) -> (r: Option<Direction>)
        ensures
            r == facing_of(*self),
    {
        match (self.up, self.left, self.down, self.right) {
            (true, false, false, false) => Some(Direction::North),
            (true, false, false, true) => Some(Direction::NorthEast),
            (false, false, false, true) => Some(Direction::East),
            (false, false, true, true) => Some(Direction::SouthEast),
            (false, false, true, false) => Some(Direction::South),
            (false, true, true, false) => Some(Direction::SouthWest),
            (false, true, false, false) => Some(Direction::West),
            (true, true, false, false) => Some(Direction::NorthWest),
            _ => None,
        }
    }
}

} // verus!
