//! The player: an on-foot occupant with a position, facing and walking
//! speed, who may occupy one of the world's vehicles by handle. While
//! occupying, movement input steers the vehicle and the player's position
//! mirrors it; leaving restores on-foot control at the vehicle's position
//! with the vehicle's controls reset.

use vstd::prelude::*;
use crate::{as_vector_spec, Direction, World};
use crate::geometry::{div_trunc, lemma_mul_le, lemma_trunc_div_scaled, trunc_div, Vec2};
use crate::vehicle::{clamp_pos, controlled_spec, Vehicle, DT_MAX, POS_MAX};

verus! {

/// On-screen scaling factor for the player sprite.
pub const PLAYER_TEXTURE_SCALING_FAC: i64 = 4;

/// Player sprite edge in pixels.
pub const PLAYER_SPRITE_SIZE: i64 = 16;

/// Scaled player sprite edge in pixels.
pub const SCALED_PLAYER_SPRITE_SIZE: i64 = 64;

/// Largest walking speed (milli-units per second).
pub const SPEED_MAX: i64 = 1_000_000;

/// The player's state.
pub struct Player {
    /// World position (milli-units). While in a vehicle it mirrors the
    /// vehicle's position.
    pub pos: Vec2,
    /// The direction last walked in.
    pub facing: Direction,
    /// On-foot walking speed (milli-units per second).
    pub movement_speed: i64,
    /// Handle of the occupied vehicle in the world's fleet, if any.
    pub in_vehicle: Option<usize>,
}

/// One walking step along a facing: the facing's unit vector scaled by the
/// speed and the tick length, converted from micro-units and milliseconds in
/// one truncating division.
pub open spec fn walk_delta_spec(facing: Direction, speed: int, dt: int) -> (int, int) {
    (
        trunc_div(as_vector_spec(facing).0 * speed * dt, 1_000_000_000),
        trunc_div(as_vector_spec(facing).1 * speed * dt, 1_000_000_000),
    )
}

impl Player {
    /// Position and speed stay within the world's machine bounds.
    pub open spec fn wf(self) -> bool {
        &&& -POS_MAX <= self.pos.x <= POS_MAX
        &&& -POS_MAX <= self.pos.y <= POS_MAX
        &&& 0 <= self.movement_speed <= SPEED_MAX
    }

    /// The occupied-vehicle handle, if set, names a vehicle of `world`.
    pub open spec fn handle_ok(self, world: World) -> bool {
        self.in_vehicle matches Some(i) ==> i < world.vehicles@.len()
    }

    /// An on-foot player at the origin, facing south, at walking speed.
    pub fn new() -> (r: Player)
        ensures
            r.pos == (Vec2 { x: 0, y: 0 }),
            r.facing == Direction::South,
            r.movement_speed == 300_000,
            r.in_vehicle.is_none(),
            r.wf(),
    {
        Player {
            pos: Vec2 { x: 0, y: 0 },
            facing: Direction::South,
            movement_speed: 300_000,
            in_vehicle: None,
        }
    }

    /// Translates the player, saturating at the world bounds.
    pub fn pos_add(&mut self, translation: Vec2)
        requires
            old(self).wf(),
            -POS_MAX <= translation.x <= POS_MAX,
            -POS_MAX <= translation.y <= POS_MAX,
        ensures
            final (self).pos.x == clamp_pos(old(self).pos.x + translation.x),
            final (self).pos.y == clamp_pos(old(self).pos.y + translation.y),
            *final (self) == (Player { pos: final (self).pos, ..*old(self) }),
            final (self).wf(),
    {
        let nx = self.pos.x + translation.x;
        let ny = self.pos.y + translation.y;
        let nx = if nx > POS_MAX {
            POS_MAX
        } else if nx < -POS_MAX {
            -POS_MAX
        } else {
            nx
        };
        let ny = if ny > POS_MAX {
            POS_MAX
        } else if ny < -POS_MAX {
            -POS_MAX
        } else {
            ny
        };
        self.pos = Vec2 { x: nx, y: ny };
    }

    /// Routes movement input: while occupying a vehicle the facing becomes
    /// that vehicle's throttle and steering commands; on foot it turns the
    /// player and walks one tick's distance, saturating at the world bounds.
    pub fn handle_controls(&mut self, world: &mut World, facing: Option<Direction>, dt_ms: i64)
        requires
            old(self).wf(),
            old(self).handle_ok(*old(world)),
            0 <= dt_ms <= DT_MAX,
        ensures
            final (self).wf(),
            final (self).handle_ok(*final (world)),
            match old(self).in_vehicle {
                Some(i) => {
                    &&& *final (self) == *old(self)
                    &&& final (world).vehicles@ == old(world).vehicles@.update(
                        i as int,
                        controlled_spec(old(world).vehicles@[i as int], facing),
                    )
                    &&& final (world).collideables == old(world).collideables
                    &&& final (world).map == old(world).map
                },
                None => {
                    &&& *final (world) == *old(world)
                    &&& match facing {
                        Some(f) => {
                            &&& final (self).facing == f
                            &&& final (self).pos.x == clamp_pos(
                                old(self).pos.x + walk_delta_spec(
                                    f,
                                    old(self).movement_speed as int,
                                    dt_ms as int,
                                ).0,
                            )
                            &&& final (self).pos.y == clamp_pos(
                                old(self).pos.y + walk_delta_spec(
                                    f,
                                    old(self).movement_speed as int,
                                    dt_ms as int,
                                ).1,
                            )
                            &&& *final (self) == (Player {
                                facing: f,
                                pos: final (self).pos,
                                ..*old(self)
                            })
                        },
                        None => *final (self) == *old(self),
                    }
                },
            },
    {
        match self.in_vehicle {
            Some(idx) => {
                let vehicle = &mut world.vehicles[idx];
                vehicle.handle_controls(facing);
            },
            None => {
                if let Some(f) = facing {
                    self.facing = f;
                    let dir = f.as_vector();
                    proof {
                        lemma_mul_le(dir.x as int, self.movement_speed as int, 1_000_000, SPEED_MAX as int);
                        lemma_mul_le(
                            (dir.x * self.movement_speed) as int,
                            dt_ms as int,
                            1_000_000 * SPEED_MAX,
                            DT_MAX as int,
                        );
                        lemma_mul_le(dir.y as int, self.movement_speed as int, 1_000_000, SPEED_MAX as int);
                        lemma_mul_le(
                            (dir.y * self.movement_speed) as int,
                            dt_ms as int,
                            1_000_000 * SPEED_MAX,
                            DT_MAX as int,
                        );
                        lemma_trunc_div_scaled(
                            (dir.x * self.movement_speed * dt_ms) as int,
                            1_000_000_000,
                            10_000_000_000,
                        );
                        lemma_trunc_div_scaled(
                            (dir.y * self.movement_speed * dt_ms) as int,
                            1_000_000_000,
                            10_000_000_000,
                        );
                    }
                    let dx = div_trunc(dir.x * self.movement_speed * dt_ms, 1_000_000_000);
                    let dy = div_trunc(dir.y * self.movement_speed * dt_ms, 1_000_000_000);
                    self.pos_add(Vec2 { x: dx, y: dy });
                }
            },
        }
    }

    /// Occupies the vehicle with the given handle: the vehicle is marked
    /// entered and on-foot movement is suspended.
    pub fn enter_vehicle(&mut self, vehicle_handle: usize, world: &mut World)
        requires
            vehicle_handle < old(world).vehicles@.len(),
        ensures
            final (self).in_vehicle == Some(vehicle_handle),
            *final (self) == (Player { in_vehicle: Some(vehicle_handle), ..*old(self) }),
            final (world).vehicles@ == old(world).vehicles@.update(
                vehicle_handle as int,
                (Vehicle { entered: true, ..old(world).vehicles@[vehicle_handle as int] }),
            ),
            final (world).collideables == old(world).collideables,
            final (world).map == old(world).map,
    {
        let vehicle = &mut world.vehicles[vehicle_handle];
        vehicle.entered = true;
        self.in_vehicle = Some(vehicle_handle);
    }

    /// Vacates the occupied vehicle: the player steps out at the vehicle's
    /// position, and the vehicle is released with neutral steering and zero
    /// throttle.
    pub fn leave_vehicle(&mut self, world: &mut World)
        requires
            old(self).in_vehicle matches Some(i) && i < old(world).vehicles@.len(),
        ensures
            final (self).in_vehicle.is_none(),
            ({
                let i = old(self).in_vehicle->Some_0;
                &&& final (self).pos == old(world).vehicles@[i as int].pos
                &&& *final (self) == (Player {
                    in_vehicle: None,
                    pos: final (self).pos,
                    ..*old(self)
                })
                &&& final (world).vehicles@ == old(world).vehicles@.update(
                    i as int,
                    (Vehicle {
                        entered: false,
                        turning_angle: 0,
                        throttle: 0,
                        ..old(world).vehicles@[i as int]
                    }),
                )
                &&& final (world).collideables == old(world).collideables
                &&& final (world).map == old(world).map
            }),
    {
        let idx = match self.in_vehicle {
            Some(i) => i,
            None => {
                proof {
                    assert(false);
                }
                0
            },
        };
        let vehicle = &mut world.vehicles[idx];
        vehicle.entered = false;
        vehicle.steer_neutral();
        vehicle.throttle = 0;
        let vehicle_pos = vehicle.pos;
        self.pos = vehicle_pos;
        self.in_vehicle = None;
    }

    /// One per-tick sync: while occupying a vehicle, the player's position
    /// mirrors it.
    pub fn update(&mut self, world: &World)
        requires
            old(self).handle_ok(*world),
        ensures
            match old(self).in_vehicle {
                Some(i) => *final (self) == (Player {
                    pos: world.vehicles@[i as int].pos,
                    ..*old(self)
                }),
                None => *final (self) == *old(self),
            },
    {
        if let Some(i) = self.in_vehicle {
            self.pos = world.vehicles[i].pos;
        }
    }
}

} // verus!
