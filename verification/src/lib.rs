//! Core logic of a top-down driving game: exact 2D ray/segment geometry,
//! a nearest-hit collision engine, hit-scan queries, vehicle dynamics with a
//! discrete gearbox, and a square-spiral tile cursor.
//!
//! All quantities are integers. World lengths are carried in milli-units
//! (one thousandth of a pixel), unit-like vectors in micro-units, so every
//! computation is exact integer arithmetic with explicitly stated truncation.

pub mod collide;
pub mod controller;
pub mod gearbox;
pub mod geometry;
pub mod player;
pub mod tilemap;
pub mod util;
pub mod vehicle;
pub mod weapons;

use vstd::prelude::*;
use crate::collide::{Collide, Object2D};
use crate::geometry::{Ratio, Vec2};
use crate::tilemap::TileMap;
use crate::vehicle::Vehicle;
use crate::weapons::{find_nearest_hit, nearest_object_hit};

verus! {

/// Length, in micro-units, of a unit vector's cardinal component.
pub const DIR_UNIT: i64 = 1_000_000;

/// Length, in micro-units, of a unit vector's diagonal components (√2/2).
pub const DIR_DIAG: i64 = 707_107;

/// An 8-way facing, the discretized movement input.
#[derive(Clone, Copy, Debug, PartialEq, Eq, Structural)]
pub enum Direction {
    North,
    NorthEast,
    East,
    SouthEast,
    South,
    SouthWest,
    West,
    NorthWest,
}

/// The unit vector of a facing, in micro fixed-point, with y growing
/// downward (north is negative y).
pub open spec fn as_vector_spec(d: Direction) -> (int, int) {
    match d {
        Direction::North => (0, -(DIR_UNIT as int)),
        Direction::NorthEast => (DIR_DIAG as int, -(DIR_DIAG as int)),
        Direction::East => (DIR_UNIT as int, 0),
        Direction::SouthEast => (DIR_DIAG as int, DIR_DIAG as int),
        Direction::South => (0, DIR_UNIT as int),
        Direction::SouthWest => (-(DIR_DIAG as int), DIR_DIAG as int),
        Direction::West => (-(DIR_UNIT as int), 0),
        Direction::NorthWest => (-(DIR_DIAG as int), -(DIR_DIAG as int)),
    }
}

/// The next facing clockwise.
pub open spec fn direction_succ(d: Direction) -> Direction {
    match d {
        Direction::North => Direction::NorthEast,
        Direction::NorthEast => Direction::East,
        Direction::East => Direction::SouthEast,
        Direction::SouthEast => Direction::South,
        Direction::South => Direction::SouthWest,
        Direction::SouthWest => Direction::West,
        Direction::West => Direction::NorthWest,
        Direction::NorthWest => Direction::North,
    }
}

impl Direction {
    /// The facing as a unit vector in micro fixed-point.
    pub fn as_vector(&self) -> (r: Vec2)
        ensures
            r.x == as_vector_spec(*self).0,
            r.y == as_vector_spec(*self).1,
    {
        match self {
            Direction::North => Vec2 { x: 0, y: -DIR_UNIT },
            Direction::NorthEast => Vec2 { x: DIR_DIAG, y: -DIR_DIAG },
            Direction::East => Vec2 { x: DIR_UNIT, y: 0 },
            Direction::SouthEast => Vec2 { x: DIR_DIAG, y: DIR_DIAG },
            Direction::South => Vec2 { x: 0, y: DIR_UNIT },
            Direction::SouthWest => Vec2 { x: -DIR_DIAG, y: DIR_DIAG },
            Direction::West => Vec2 { x: -DIR_UNIT, y: 0 },
            Direction::NorthWest => Vec2 { x: -DIR_DIAG, y: -DIR_DIAG },
        }
    }

    /// The facing has a northward component.
    pub fn has_north(&self) -> (r: bool)
        ensures
            r == (*self == Direction::North || *self == Direction::NorthWest || *self
                == Direction::NorthEast),
    {
        matches!(self, Direction::North | Direction::NorthWest | Direction::NorthEast)
    }

    /// The facing has an eastward component.
    pub fn has_east(&self) -> (r: bool)
        ensures
            r == (*self == Direction::East || *self == Direction::SouthEast || *self
                == Direction::NorthEast),
    {
        matches!(self, Direction::East | Direction::SouthEast | Direction::NorthEast)
    }

    /// The facing has a southward component.
    pub fn has_south(&self) -> (r: bool)
        ensures
            r == (*self == Direction::South || *self == Direction::SouthEast || *self
                == Direction::SouthWest),
    {
        matches!(self, Direction::South | Direction::SouthEast | Direction::SouthWest)
    }

    /// The facing has a westward component.
    pub fn has_west(&self) -> (r: bool)
        ensures
            r == (*self == Direction::West || *self == Direction::NorthWest || *self
                == Direction::SouthWest),
    {
        matches!(self, Direction::West | Direction::NorthWest | Direction::SouthWest)
    }
}

/// A cursor that cycles clockwise through the eight facings, starting just
/// after a given one.
pub struct DirectionIter(pub Direction);

impl DirectionIter {
    /// A cursor that will yield the facings after `start`.
    pub fn new(start: Direction) -> (r: DirectionIter)
        ensures
            r.0 == start,
    {
        DirectionIter(start)
    }

    /// Advances to and yields the next facing clockwise; the cycle never
    /// ends.
    pub fn next(&mut self) -> (r: Option<Direction>)
        ensures
            final (self).0 == direction_succ(old(self).0),
            r == Some(final (self).0),
    {
        let next = match self.0 {
            Direction::North => Direction::NorthEast,
            Direction::NorthEast => Direction::East,
            Direction::East => Direction::SouthEast,
            Direction::SouthEast => Direction::South,
            Direction::South => Direction::SouthWest,
            Direction::SouthWest => Direction::West,
            Direction::West => Direction::NorthWest,
            Direction::NorthWest => Direction::North,
        };
        self.0 = next;
        Some(next)
    }
}

/// The world: the vehicles, the collidable obstacles hit-scans run against,
/// and the tile grid.
pub struct World {
    pub vehicles: Vec<Vehicle>,
    pub collideables: Vec<Object2D>,
    pub map: TileMap,
}

impl World {
    /// An empty world over the given tile grid.
    pub fn new(map: TileMap) -> (r: World)
        ensures
            r.vehicles@.len() == 0,
            r.collideables@.len() == 0,
            r.map == map,
    {
        World { vehicles: Vec::new(), collideables: Vec::new(), map }
    }

    /// Adds a vehicle to the world's fleet.
    pub fn add_vehicle(&mut self, vehicle: Vehicle)
        ensures
            final (self).vehicles@ == old(self).vehicles@.push(vehicle),
            final (self).collideables == old(self).collideables,
            final (self).map == old(self).map,
    {
        self.vehicles.push(vehicle);
    }

    /// Adds a collidable obstacle to the world.
    pub fn add_collideable(&mut self, object: Object2D)
        ensures
            final (self).collideables@ == old(self).collideables@.push(object),
            final (self).vehicles == old(self).vehicles,
            final (self).map == old(self).map,
    {
        self.collideables.push(object);
    }

    /// Reports the collidable nearest along the ray from `origin`, if any:
    /// the struck object's index, the ray parameter of the hit and the
    /// surface normal there.
    pub fn find_nearest_collidable(&self, origin: Vec2, direction: Vec2) -> (r: Option<
        (usize, Ratio, Vec2),
    >)
        requires
            origin.in_bounds(),
            direction.in_bounds(),
            forall|j: int|
                0 <= j < self.collideables@.len() ==> (#[trigger] self.collideables@[j]).shape_wf(),
        ensures
            nearest_object_hit(self.collideables@, origin, direction, r),
    {
        find_nearest_hit(&self.collideables, origin, direction)
    }
}

} // verus!
