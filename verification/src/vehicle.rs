//! Vehicle dynamics: throttle/steering input is integrated into velocity,
//! orientation and position through force, drag and torque, modulated by a
//! discrete gearbox.
//!
//! Units: positions in milli-units, velocity in mm/s, acceleration in mm/s²,
//! torque in Nm, force in N, mass in kg, wheel diameter in mm, time in ms,
//! throttle in milli (±1000 = ±1), gear ratios in milli, the orientation
//! vector in micro fixed-point (`ROT_ONE` = unit length), angles in
//! micro-radians.

use vstd::prelude::*;
use crate::Direction;
use crate::gearbox::{Gearbox, RATIO_MAX};
use crate::geometry::{
    div_trunc, lemma_mul_bounds_nonneg, lemma_mul_le, lemma_sq_bound, lemma_sq_nonneg,
    lemma_trunc_div_bounds, lemma_trunc_div_scaled, lemma_trunc_div_sq, trunc_div, Vec2,
};

verus! {

/// Throttle magnitude bound (milli: 1000 = full).
pub const THROTTLE_MAX: i64 = 1000;

/// Largest engine, reverse or braking torque (Nm).
pub const TORQUE_MAX: i64 = 100_000;

/// Largest effective (gear-modulated) torque handed to the wheel (Nm).
pub const EFF_TORQUE_MAX: i64 = 10_000_000;

/// Mass bounds (kg).
pub const MASS_MIN: i64 = 1;

pub const MASS_MAX: i64 = 1_000_000;

/// Wheel diameter bounds (mm).
pub const WHEEL_MIN: i64 = 1;

pub const WHEEL_MAX: i64 = 100_000;

/// Velocity saturation (mm/s): a machine limit far beyond any reachable
/// terminal velocity.
pub const VEL_MAX: i64 = 1_000_000;

/// Largest tick duration (ms).
pub const DT_MAX: i64 = 10_000;

/// Largest force magnitude the integrator accepts (N).
pub const FORCE_MAX: i64 = 20_000_000_000;

/// Position saturation (milli-units): the world's machine limit.
pub const POS_MAX: i64 = 1_000_000_000_000_000;

/// Fixed-point scale of the orientation vector.
pub const ROT_ONE: i64 = 1_000_000;

/// Steering angle magnitude: 45 degrees in micro-radians.
pub const TURN_ANGLE: i64 = 785_398;

/// Cosine and sine, in micro fixed-point, of the per-tick yaw step
/// `TURN_ANGLE * 0.03` radians (the fixed damping factor coupling steering
/// input to yaw rate).
pub const TURN_COS: i64 = 999_722;

pub const TURN_SIN: i64 = 23_560;

/// Air density in milli-kg/m³.
pub const AIR_DENSITY_MILLI: i64 = 1293;

/// Reference frontal area in milli-m².
pub const REFERENCE_AREA_MILLI: i64 = 1300;

/// Drag coefficient in milli.
pub const DRAG_COEFF_MILLI: i64 = 400;

/// Bounds accepted by the drag computation.
pub const DENSITY_MAX: i64 = 2000;

pub const AREA_MAX: i64 = 10_000;

pub const COEFF_MAX: i64 = 1000;

/// `2 * 1000^5`: converts the product of four milli-scaled factors and a
/// squared mm/s velocity into newtons, with the leading one half.
pub const DRAG_DIVISOR: i64 = 2_000_000_000_000_000;

/// Largest drag force the bounds above allow (N).
pub const DRAG_MAX: i64 = 10_000_000;

/// Velocity-squared air resistance, in newtons:
/// `0.5 * density * v^2 * coefficient * area`, each factor in the units
/// given above, truncated once at the end.
pub open spec fn drag_spec(density: int, v: int, coeff: int, area: int) -> int {
    ((((density * v) * v) * coeff) * area) / (DRAG_DIVISOR as int)
}

/// `F = m * a`, solved for the acceleration in mm/s²: `a = F * 1000 / m`.
pub open spec fn accel_spec(force: int, mass: int) -> int {
    trunc_div(force * 1000, mass)
}

/// Velocity clamped into its saturation range: never negative (travel
/// direction is carried by the `reversed` flag instead), never above the
/// machine limit.
pub open spec fn clamp_vel(v: int) -> int {
    if v < 0 {
        0
    } else if v > VEL_MAX {
        VEL_MAX as int
    } else {
        v
    }
}

/// One velocity integration step: `v + a * dt`, clamped.
pub open spec fn vel_step_spec(v: int, accel: int, dt: int) -> int {
    clamp_vel(v + trunc_div(accel * dt, 1000))
}

/// Force at the contact patch from torque at the wheel: `torque / radius`
/// with the diameter in mm, hence the factor 1000.
pub open spec fn wheel_force_spec(torque: int, wheel_diameter: int) -> int {
    trunc_div(torque * 1000, wheel_diameter)
}

/// One force integration, as a function on states: stores the acceleration
/// and the clamped velocity, touching nothing else.
pub open spec fn apply_force_spec(s: Vehicle, force: int, dt: int) -> Vehicle {
    Vehicle {
        acceleration: accel_spec(force, s.mass as int) as i64,
        velocity: vel_step_spec(s.velocity as int, accel_spec(force, s.mass as int), dt) as i64,
        ..s
    }
}

/// The orientation vector keeps bounded components and at most unit length
/// (squared, in fixed point). Truncation may shrink it slightly; it never
/// grows.
pub open spec fn rot_wf(r: Vec2) -> bool {
    &&& -ROT_ONE <= r.x <= ROT_ONE
    &&& -ROT_ONE <= r.y <= ROT_ONE
    &&& r.x * r.x + r.y * r.y <= ROT_ONE * ROT_ONE
}

/// Mutable simulation state of one vehicle.
pub struct Vehicle {
    /// World position (milli-units).
    pub pos: Vec2,
    /// Whether an occupant currently controls the vehicle.
    pub entered: bool,
    /// Acceleration from the last force application (mm/s²), kept for display.
    pub acceleration: i64,
    /// Steering angle: `-TURN_ANGLE`, 0 or `TURN_ANGLE` micro-radians.
    pub turning_angle: i64,
    /// Travelling backwards: velocity stays non-negative, this flag carries
    /// the direction.
    pub reversed: bool,
    /// Peak engine torque (Nm).
    pub torque: i64,
    /// Torque available in reverse (Nm).
    pub reverse_torque: i64,
    /// Mass (kg).
    pub mass: i64,
    /// Forward speed magnitude (mm/s), non-negative.
    pub velocity: i64,
    /// Orientation vector, micro fixed-point, length at most `ROT_ONE`.
    pub rotation: Vec2,
    /// Throttle command in [-1000, 1000] milli.
    pub throttle: i64,
    /// Braking torque (Nm).
    pub breaking_torque: i64,
    /// Wheel diameter (mm).
    pub wheel_diameter: i64,
    /// The gear ladder modulating engine torque.
    pub gearbox: Gearbox,
}

/// Throttle command for an 8-way facing: north-ish drives, south-ish brakes
/// or reverses, east/west only steer.
pub open spec fn throttle_for(facing: Option<Direction>) -> int {
    match facing {
        None => 0,
        Some(f) => match f {
            Direction::North => 1000,
            Direction::NorthEast => 1000,
            Direction::NorthWest => 1000,
            Direction::East => 0,
            Direction::West => 0,
            Direction::SouthEast => -1000,
            Direction::South => -1000,
            Direction::SouthWest => -1000,
        },
    }
}

/// Steering command for an 8-way facing: east-ish steers right, west-ish
/// steers left.
pub open spec fn steer_for(facing: Option<Direction>) -> int {
    match facing {
        None => 0,
        Some(f) => match f {
            Direction::North => 0,
            Direction::South => 0,
            Direction::NorthEast => TURN_ANGLE as int,
            Direction::East => TURN_ANGLE as int,
            Direction::SouthEast => TURN_ANGLE as int,
            Direction::SouthWest => -TURN_ANGLE,
            Direction::West => -TURN_ANGLE,
            Direction::NorthWest => -TURN_ANGLE,
        },
    }
}

/// A vehicle after one control application: the facing's throttle and
/// steering commands, everything else untouched.
pub open spec fn controlled_spec(v: Vehicle, facing: Option<Direction>) -> Vehicle {
    Vehicle {
        throttle: throttle_for(facing) as i64,
        turning_angle: steer_for(facing) as i64,
        ..v
    }
}

impl Vehicle {
    /// The construction-time parameters are within their machine bounds.
    pub open spec fn params_wf(self) -> bool {
        &&& MASS_MIN <= self.mass <= MASS_MAX
        &&& 0 <= self.torque <= TORQUE_MAX
        &&& 0 <= self.reverse_torque <= TORQUE_MAX
        &&& 0 <= self.breaking_torque <= TORQUE_MAX
        &&& WHEEL_MIN <= self.wheel_diameter <= WHEEL_MAX
        &&& self.gearbox.wf()
    }

    /// Full state invariant, established at construction and preserved by
    /// every tick.
    pub open spec fn wf(self) -> bool {
        &&& self.params_wf()
        &&& 0 <= self.velocity <= VEL_MAX
        &&& -THROTTLE_MAX <= self.throttle <= THROTTLE_MAX
        &&& (self.turning_angle == -TURN_ANGLE || self.turning_angle == 0 || self.turning_angle
            == TURN_ANGLE)
        &&& rot_wf(self.rotation)
        &&& -POS_MAX <= self.pos.x <= POS_MAX
        &&& -POS_MAX <= self.pos.y <= POS_MAX
    }

    /// The default car: 1.3 t, 650 Nm engine, 400 mm wheels, six-gear ladder,
    /// at rest at the origin facing up (negative y).
    pub fn new() -> (r: Vehicle)
        ensures
            r.pos == (Vec2 { x: 0, y: 0 }),
            !r.entered,
            r.acceleration == 0,
            r.turning_angle == 0,
            !r.reversed,
            r.torque == 650,
            r.reverse_torque == 400,
            r.mass == 1300,
            r.velocity == 0,
            r.rotation.x == 0,
            r.rotation.y == -ROT_ONE,
            r.throttle == 0,
            r.breaking_torque == 10_000,
            r.wheel_diameter == 400,
            r.gearbox.ratios() == seq![8000i64, 2000i64, 1400i64, 1000i64, 800i64, 600i64],
            r.gearbox.cur() == 0,
            r.wf(),
    {
        let r = Vehicle {
            pos: Vec2 { x: 0, y: 0 },
            entered: false,
            acceleration: 0,
            turning_angle: 0,
            reversed: false,
            torque: 650,
            reverse_torque: 400,
            mass: 1300,
            velocity: 0,
            rotation: Vec2 { x: 0, y: -ROT_ONE },
            throttle: 0,
            breaking_torque: 10_000,
            wheel_diameter: 400,
            gearbox: Gearbox::six_step(),
        };
        proof {
            assert((-(ROT_ONE as int)) * (-(ROT_ONE as int)) == (ROT_ONE as int) * (ROT_ONE
                as int)) by (nonlinear_arith);
        }
        r
    }

    /// Sets the steering angle to 45 degrees right.
    pub fn steer_right(&mut self)
        ensures
            *final (self) == (Vehicle { turning_angle: TURN_ANGLE, ..*old(self) }),
    {
        self.turning_angle = TURN_ANGLE;
    }

    /// Sets the steering angle to 45 degrees left.
    pub fn steer_left(&mut self)
        ensures
            final (self).turning_angle == -TURN_ANGLE,
            *final (self) == (Vehicle {
                turning_angle: final (self).turning_angle,
                ..*old(self)
            }),
    {
        self.turning_angle = -TURN_ANGLE;
    }

    /// Centers the steering.
    pub fn steer_neutral(&mut self)
        ensures
            *final (self) == (Vehicle { turning_angle: 0, ..*old(self) }),
    {
        self.turning_angle = 0;
    }

    /// Integrates a force over `time` ms: stores the acceleration `F / m`
    /// and advances the velocity by `a * dt`, clamped into `[0, VEL_MAX]`.
    pub fn apply_force(&mut self, force: i64, time: i64)
        requires
            old(self).params_wf(),
            0 <= old(self).velocity <= VEL_MAX,
            -FORCE_MAX <= force <= FORCE_MAX,
            0 <= time <= DT_MAX,
        ensures
            final (self).acceleration == accel_spec(force as int, old(self).mass as int),
            final (self).velocity == vel_step_spec(
                old(self).velocity as int,
                accel_spec(force as int, old(self).mass as int),
                time as int,
            ),
            0 <= final (self).velocity <= VEL_MAX,
            *final (self) == apply_force_spec(*old(self), force as int, time as int),
    {
        proof {
            lemma_trunc_div_bounds(force * 1000, self.mass as int);
        }
        let acc = div_trunc(force * 1000, self.mass);
        proof {
            lemma_mul_le(acc as int, time as int, FORCE_MAX * 1000, DT_MAX as int);
            lemma_trunc_div_bounds(acc * time, 1000);
        }
        let dv = div_trunc(acc * time, 1000);
        let sum = self.velocity + dv;
        let v = if sum < 0 {
            0
        } else if sum > VEL_MAX {
            VEL_MAX
        } else {
            sum
        };
        self.acceleration = acc;
        self.velocity = v;
    }

    /// Force at the road from a torque at the wheel: `torque / radius`.
    pub fn force_from_wheel_torque(&self, torque: i64) -> (r: i64)
        requires
            self.params_wf(),
            -EFF_TORQUE_MAX <= torque <= EFF_TORQUE_MAX,
        ensures
            r == wheel_force_spec(torque as int, self.wheel_diameter as int),
            -FORCE_MAX <= r <= FORCE_MAX,
    {
        proof {
            lemma_trunc_div_bounds(torque * 1000, self.wheel_diameter as int);
        }
        div_trunc(torque * 1000, self.wheel_diameter)
    }

    /// The current speed in milli-km/h: `v * 3.6` for `v` in mm/s.
    pub fn velocity_kmh_milli(&self) -> (r: i64)
        requires
            0 <= self.velocity <= VEL_MAX,
        ensures
            r == (self.velocity * 18) / 5,
    {
        (self.velocity * 18) / 5
    }

    /// Maps an 8-way facing (or none) to a throttle/steering pair.
    pub fn handle_controls(&mut self, facing: Option<Direction>)
        ensures
            final (self).throttle == throttle_for(facing),
            final (self).turning_angle == steer_for(facing),
            *final (self) == controlled_spec(*old(self), facing),
    {
        match facing {
            Some(facing) => {
                match facing {
                    Direction::North => {
                        self.throttle = 1000;
                        self.steer_neutral();
                    },
                    Direction::NorthEast => {
                        self.throttle = 1000;
                        self.steer_right();
                    },
                    Direction::East => {
                        self.steer_right();
                        self.throttle = 0;
                    },
                    Direction::SouthEast => {
                        self.steer_right();
                        self.throttle = -1000;
                    },
                    Direction::South => {
                        self.throttle = -1000;
                        self.steer_neutral();
                    },
                    Direction::SouthWest => {
                        self.steer_left();
                        self.throttle = -1000;
                    },
                    Direction::West => {
                        self.steer_left();
                        self.throttle = 0;
                    },
                    Direction::NorthWest => {
                        self.steer_left();
                        self.throttle = 1000;
                    },
                }
            },
            None => {
                self.throttle = 0;
                self.steer_neutral();
            },
        }
    }
}

/// x component of the fixed-point rotation of `r` by the angle whose cosine
/// and sine (micro fixed-point) are `c` and `s`.
pub open spec fn rot_mul_x(r: Vec2, c: int, s: int) -> int {
    trunc_div(r.x * c - r.y * s, ROT_ONE as int)
}

/// y component of the fixed-point rotation.
pub open spec fn rot_mul_y(r: Vec2, c: int, s: int) -> int {
    trunc_div(r.x * s + r.y * c, ROT_ONE as int)
}

/// One steering tick applied to the orientation: rotation by the fixed yaw
/// step, right for a positive steering angle, left for a negative one,
/// nothing for neutral.
pub open spec fn rot_step_spec(r: Vec2, ta: int) -> Vec2 {
    if ta > 0 {
        Vec2 {
            x: rot_mul_x(r, TURN_COS as int, TURN_SIN as int) as i64,
            y: rot_mul_y(r, TURN_COS as int, TURN_SIN as int) as i64,
        }
    } else if ta < 0 {
        Vec2 {
            x: rot_mul_x(r, TURN_COS as int, -(TURN_SIN as int)) as i64,
            y: rot_mul_y(r, TURN_COS as int, -(TURN_SIN as int)) as i64,
        }
    } else {
        r
    }
}

/// `v` negated when travelling in reverse.
pub open spec fn signed(v: int, reversed: bool) -> int {
    if reversed {
        -v
    } else {
        v
    }
}

/// Position saturated into the world's machine bounds.
pub open spec fn clamp_pos(v: int) -> int {
    if v > POS_MAX {
        POS_MAX as int
    } else if v < -POS_MAX {
        -(POS_MAX as int)
    } else {
        v
    }
}

/// One position tick: the orientation scaled by the velocity (sign from the
/// `reversed` flag), added to the position, saturated at the world bounds.
pub open spec fn pos_step_spec(pos: Vec2, rot: Vec2, velocity: int, reversed: bool) -> Vec2 {
    Vec2 {
        x: clamp_pos(pos.x + trunc_div(signed(rot.x * velocity, reversed), ROT_ONE as int)) as i64,
        y: clamp_pos(pos.y + trunc_div(signed(rot.y * velocity, reversed), ROT_ONE as int)) as i64,
    }
}

/// Rotating by the yaw step and truncating never lengthens the orientation:
/// `(x*c - y*s)^2 + (x*s + y*c)^2 == (x^2 + y^2) * (c^2 + s^2)`.
proof fn lemma_rot_norm_identity(x: int, y: int, c: int, s: int)
    ensures
        (x * c - y * s) * (x * c - y * s) + (x * s + y * c) * (x * s + y * c) == (x * x + y * y) * (
        c * c + s * s),
{
    let a = x * c;
    let b = y * s;
    let g = x * s;
    let h = y * c;
    assert((a - b) * (a - b) == a * a - 2 * (a * b) + b * b) by (nonlinear_arith);
    assert((g + h) * (g + h) == g * g + 2 * (g * h) + h * h) by (nonlinear_arith);
    assert(a * b == g * h) by (nonlinear_arith)
        requires
            a == x * c,
            b == y * s,
            g == x * s,
            h == y * c,
    ;
    assert(a * a == (x * x) * (c * c)) by (nonlinear_arith)
        requires
            a == x * c,
    ;
    assert(b * b == (y * y) * (s * s)) by (nonlinear_arith)
        requires
            b == y * s,
    ;
    assert(g * g == (x * x) * (s * s)) by (nonlinear_arith)
        requires
            g == x * s,
    ;
    assert(h * h == (y * y) * (c * c)) by (nonlinear_arith)
        requires
            h == y * c,
    ;
    assert((x * x + y * y) * (c * c + s * s) == (x * x) * (c * c) + (x * x) * (s * s) + (y * y) * (
    c * c) + (y * y) * (s * s)) by (nonlinear_arith);
}

/// Applies one yaw step to the orientation vector, preserving its invariant.
fn rotate_step(r: Vec2, ta: i64) -> (nr: Vec2)
    requires
        rot_wf(r),
    ensures
        nr == rot_step_spec(r, ta as int),
        rot_wf(nr),
{
    if ta == 0 {
        return r;
    }
    let s: i64 = if ta > 0 {
        TURN_SIN
    } else {
        -TURN_SIN
    };
    proof {
        lemma_mul_le(r.x as int, TURN_COS as int, ROT_ONE as int, ROT_ONE as int);
        lemma_mul_le(r.y as int, s as int, ROT_ONE as int, ROT_ONE as int);
        lemma_mul_le(r.x as int, s as int, ROT_ONE as int, ROT_ONE as int);
        lemma_mul_le(r.y as int, TURN_COS as int, ROT_ONE as int, ROT_ONE as int);
    }
    let a = r.x * TURN_COS - r.y * s;
    let b = r.x * s + r.y * TURN_COS;
    let nx = div_trunc(a, ROT_ONE);
    let ny = div_trunc(b, ROT_ONE);
    proof {
        lemma_rot_norm_identity(r.x as int, r.y as int, TURN_COS as int, s as int);
        assert((TURN_COS as int) * (TURN_COS as int) + (s as int) * (s as int) <= (ROT_ONE as int)
            * (ROT_ONE as int)) by (nonlinear_arith)
            requires
                s as int == TURN_SIN as int || s as int == -(TURN_SIN as int),
        ;
        lemma_sq_nonneg(r.x as int);
        lemma_sq_nonneg(r.y as int);
        lemma_mul_bounds_nonneg(
            r.x * r.x + r.y * r.y,
            (TURN_COS as int) * (TURN_COS as int) + (s as int) * (s as int),
            (ROT_ONE * ROT_ONE) as int,
            (ROT_ONE * ROT_ONE) as int,
        );
        lemma_trunc_div_sq(a as int, ROT_ONE as int);
        lemma_trunc_div_sq(b as int, ROT_ONE as int);
        lemma_sq_nonneg(nx as int);
        lemma_sq_nonneg(ny as int);
        lemma_sq_bound(nx as int, ROT_ONE as int);
        lemma_sq_bound(ny as int, ROT_ONE as int);
    }
    Vec2 { x: nx, y: ny }
}

impl Vehicle {
    /// Advances the simulation by one tick of `dt_ms` milliseconds, in the
    /// fixed order the dynamics require: drag opposes the current motion
    /// first; then the throttle branch applies driving, reverse or braking
    /// force through the gearbox and wheel; then the steering angle yaws the
    /// orientation; finally the position advances along the orientation by
    /// the new velocity, backwards when reversed.
    pub fn update(&mut self, dt_ms: i64)
        requires
            old(self).wf(),
            0 <= dt_ms <= DT_MAX,
        ensures
            *final (self) == update_spec(*old(self), dt_ms as int),
            final (self).wf(),
    {
        let drag = drag_force(
            AIR_DENSITY_MILLI,
            self.velocity,
            REFERENCE_AREA_MILLI,
            DRAG_COEFF_MILLI,
        );
        self.apply_force(-drag, dt_ms);
        if self.throttle > 0 {
            self.reversed = false;
            let ratio = self.gearbox.gear_ratio();
            proof {
                lemma_mul_le(
                    self.throttle as int,
                    self.torque as int,
                    THROTTLE_MAX as int,
                    TORQUE_MAX as int,
                );
                lemma_mul_le(
                    (self.throttle * self.torque) as int,
                    ratio as int,
                    (THROTTLE_MAX * TORQUE_MAX) as int,
                    RATIO_MAX as int,
                );
                lemma_trunc_div_scaled(
                    (self.throttle * self.torque * ratio) as int,
                    1_000_000,
                    EFF_TORQUE_MAX as int,
                );
            }
            let eff = div_trunc(self.throttle * self.torque * ratio, 1_000_000);
            let f = self.force_from_wheel_torque(eff);
            self.apply_force(f, dt_ms);
        } else {
            if self.velocity <= 0 {
                self.reversed = true;
            }
            if self.reversed {
                proof {
                    lemma_mul_le(
                        self.throttle as int,
                        self.reverse_torque as int,
                        THROTTLE_MAX as int,
                        TORQUE_MAX as int,
                    );
                    lemma_trunc_div_scaled(
                        (self.throttle * self.reverse_torque) as int,
                        1000,
                        EFF_TORQUE_MAX as int,
                    );
                }
                let eff = div_trunc(self.throttle * self.reverse_torque, 1000);
                let f = self.force_from_wheel_torque(eff);
                self.apply_force(f, dt_ms);
            } else {
                proof {
                    lemma_mul_le(
                        self.throttle as int,
                        self.breaking_torque as int,
                        THROTTLE_MAX as int,
                        TORQUE_MAX as int,
                    );
                    lemma_trunc_div_scaled(
                        (self.throttle * self.breaking_torque) as int,
                        1000,
                        EFF_TORQUE_MAX as int,
                    );
                }
                let eff = div_trunc(self.throttle * self.breaking_torque, 1000);
                let f = self.force_from_wheel_torque(eff);
                self.apply_force(f, dt_ms);
            }
        }
        self.rotation = rotate_step(self.rotation, self.turning_angle);
        proof {
            lemma_mul_le(
                self.rotation.x as int,
                self.velocity as int,
                ROT_ONE as int,
                VEL_MAX as int,
            );
            lemma_mul_le(
                self.rotation.y as int,
                self.velocity as int,
                ROT_ONE as int,
                VEL_MAX as int,
            );
            lemma_trunc_div_bounds((self.rotation.x * self.velocity) as int, ROT_ONE as int);
            lemma_trunc_div_bounds((self.rotation.y * self.velocity) as int, ROT_ONE as int);
            lemma_trunc_div_bounds(-((self.rotation.x * self.velocity) as int), ROT_ONE as int);
            lemma_trunc_div_bounds(-((self.rotation.y * self.velocity) as int), ROT_ONE as int);
        }
        let px = self.rotation.x * self.velocity;
        let px = if self.reversed {
            -px
        } else {
            px
        };
        let py = self.rotation.y * self.velocity;
        let py = if self.reversed {
            -py
        } else {
            py
        };
        let dx = div_trunc(px, ROT_ONE);
        let dy = div_trunc(py, ROT_ONE);
        let nx = self.pos.x + dx;
        let ny = self.pos.y + dy;
        let nx = if nx > POS_MAX {
            POS_MAX
        } else if nx < -POS_MAX {
            -POS_MAX
        } else {
            nx
        };
        let ny = if ny > POS_MAX {
            POS_MAX
        } else if ny < -POS_MAX {
            -POS_MAX
        } else {
            ny
        };
        self.pos = Vec2 { x: nx, y: ny };
    }
}

/// The force the throttle branch applies in the given pre-branch state: the
/// gear-modulated engine torque when driving, the reverse torque when the
/// `reversed` flag (just recomputed as `rev`) is set, the braking torque
/// otherwise, each put through the wheel.
pub open spec fn branch_force_spec(s: Vehicle, rev: bool) -> int {
    if s.throttle > 0 {
        wheel_force_spec(
            trunc_div(s.throttle * s.torque * s.gearbox.current_ratio_spec(), 1_000_000),
            s.wheel_diameter as int,
        )
    } else if rev {
        wheel_force_spec(trunc_div(s.throttle * s.reverse_torque, 1000), s.wheel_diameter as int)
    } else {
        wheel_force_spec(trunc_div(s.throttle * s.breaking_torque, 1000), s.wheel_diameter as int)
    }
}

/// One full tick of the dynamics, as a function on states: drag, then the
/// throttle branch with its `reversed` update, then the yaw step, then the
/// position step.
pub open spec fn update_spec(s: Vehicle, dt: int) -> Vehicle {
    let drag = drag_spec(
        AIR_DENSITY_MILLI as int,
        s.velocity as int,
        DRAG_COEFF_MILLI as int,
        REFERENCE_AREA_MILLI as int,
    );
    let s1 = apply_force_spec(s, -drag, dt);
    let rev = if s1.throttle > 0 {
        false
    } else if s1.velocity <= 0 {
        true
    } else {
        s1.reversed
    };
    let s1a = Vehicle { reversed: rev, ..s1 };
    let s2 = apply_force_spec(s1a, branch_force_spec(s1a, rev), dt);
    let s3 = Vehicle { rotation: rot_step_spec(s2.rotation, s2.turning_angle as int), ..s2 };
    Vehicle { pos: pos_step_spec(s3.pos, s3.rotation, s3.velocity as int, s3.reversed), ..s3 }
}

/// From rest with the throttle open, a tick never slows the vehicle and
/// never drives the velocity negative: at zero velocity there is no drag, and
/// the drive force is non-negative, so the velocity can only grow (by how
/// much depends on the torque, gearing and truncation) and stays bounded
/// below by zero.
pub proof fn lemma_rest_full_throttle_monotone(v: Vehicle, dt: int)
    requires
        v.wf(),
        v.velocity == 0,
        v.throttle > 0,
        0 <= dt <= DT_MAX,
    ensures
        update_spec(v, dt).velocity >= v.velocity,
        update_spec(v, dt).velocity >= 0,
{
    vstd::arithmetic::div_mod::lemma_div_of0(DRAG_DIVISOR as int);
    let drag = drag_spec(
        AIR_DENSITY_MILLI as int,
        v.velocity as int,
        DRAG_COEFF_MILLI as int,
        REFERENCE_AREA_MILLI as int,
    );
    assert(drag == 0);
    lemma_trunc_div_bounds(0, v.mass as int);
    let acc1 = accel_spec(-drag, v.mass as int);
    assert(acc1 == 0);
    assert(acc1 * dt == 0) by (nonlinear_arith)
        requires
            acc1 == 0,
    ;
    lemma_trunc_div_bounds(0, 1000);
    let s1 = apply_force_spec(v, -drag, dt);
    assert(s1.velocity == 0);
    let s1a = Vehicle { reversed: false, ..s1 };
    // The drive force is non-negative: throttle, torque and gear ratio all are.
    let ratio = v.gearbox.current_ratio_spec();
    assert(0 <= ratio <= RATIO_MAX);
    lemma_mul_bounds_nonneg(
        v.throttle as int,
        v.torque as int,
        THROTTLE_MAX as int,
        TORQUE_MAX as int,
    );
    lemma_mul_bounds_nonneg(
        v.throttle * v.torque,
        ratio as int,
        (THROTTLE_MAX * TORQUE_MAX) as int,
        RATIO_MAX as int,
    );
    lemma_trunc_div_bounds(v.throttle * v.torque * ratio, 1_000_000);
    let eff = trunc_div(v.throttle * v.torque * ratio, 1_000_000);
    lemma_mul_bounds_nonneg(eff, 1000, 0x7fff_ffff_ffff_ffff, 1000);
    lemma_trunc_div_bounds(eff * 1000, v.wheel_diameter as int);
    let f = branch_force_spec(s1a, false);
    assert(f >= 0);
    lemma_trunc_div_bounds(f * 1000, v.mass as int);
    let acc = accel_spec(f, v.mass as int);
    assert(acc >= 0);
    lemma_mul_bounds_nonneg(acc, dt, 0x7fff_ffff_ffff_ffff, DT_MAX as int);
    lemma_trunc_div_bounds(acc * dt, 1000);
    let s2 = apply_force_spec(s1a, f, dt);
    assert(s2.velocity >= 0);
    let s3 = Vehicle { rotation: rot_step_spec(s2.rotation, s2.turning_angle as int), ..s2 };
    let s4 = Vehicle {
        pos: pos_step_spec(s3.pos, s3.rotation, s3.velocity as int, s3.reversed),
        ..s3
    };
    assert(update_spec(v, dt) == s4);
}

/// The standard car (650 Nm engine, first gear ratio 8.0, 400 mm wheels,
/// 1.3 t) at rest with the throttle fully open gains speed in every tick of
/// at least a millisecond: drive force 13 kN, acceleration 10 m/s², so a
/// tick of `dt` ms adds `10 * dt` mm/s.
pub proof fn lemma_default_car_accelerates_from_rest(v: Vehicle, dt: int)
    requires
        v.wf(),
        v.velocity == 0,
        v.throttle == 1000,
        v.torque == 650,
        v.wheel_diameter == 400,
        v.mass == 1300,
        v.gearbox.current_ratio_spec() == 8000,
        1 <= dt <= DT_MAX,
    ensures
        update_spec(v, dt).velocity == clamp_vel(10 * dt),
        update_spec(v, dt).velocity > 0,
{
    vstd::arithmetic::div_mod::lemma_div_of0(DRAG_DIVISOR as int);
    let drag = drag_spec(
        AIR_DENSITY_MILLI as int,
        v.velocity as int,
        DRAG_COEFF_MILLI as int,
        REFERENCE_AREA_MILLI as int,
    );
    assert(drag == 0);
    lemma_trunc_div_bounds(0, v.mass as int);
    let acc1 = accel_spec(-drag, v.mass as int);
    assert(acc1 == 0);
    assert(acc1 * dt == 0) by (nonlinear_arith)
        requires
            acc1 == 0,
    ;
    lemma_trunc_div_bounds(0, 1000);
    let s1 = apply_force_spec(v, -drag, dt);
    assert(s1.velocity == 0);
    let s1a = Vehicle { reversed: false, ..s1 };
    // Drive force through the first gear and the wheel, all on concrete
    // numbers: 1000 * 650 * 8000 / 10^6 = 5200 Nm, 5200 * 1000 / 400 =
    // 13000 N, 13000 * 1000 / 1300 = 10000 mm/s².
    let f = branch_force_spec(s1a, false);
    assert(trunc_div((1000 * 650 * 8000) as int, 1_000_000) == 5200);
    assert(trunc_div((5200 * 1000) as int, 400) == 13_000);
    assert(f == 13_000);
    assert(trunc_div((13_000 * 1000) as int, 1300) == 10_000);
    let acc = accel_spec(f, v.mass as int);
    assert(acc == 10_000);
    // One tick adds 10 mm/s per millisecond, exactly.
    vstd::arithmetic::div_mod::lemma_div_multiples_vanish(10 * dt, 1000);
    assert(acc * dt == 1000 * (10 * dt)) by (nonlinear_arith)
        requires
            acc == 10_000,
    ;
    assert(trunc_div(acc * dt, 1000) == 10 * dt);
}

/// Coasting forward with the throttle closed, a tick never speeds the
/// vehicle up and never drives the velocity negative: drag is the only
/// force, it opposes the motion, and the braking branch contributes nothing
/// at zero throttle. Truncation may round the drag's effect to nothing in a
/// tick (at velocity 1 it does), so the decrease is not always strict.
pub proof fn lemma_coast_never_negative(v: Vehicle, dt: int)
    requires
        v.wf(),
        v.throttle == 0,
        !v.reversed,
        0 <= dt <= DT_MAX,
    ensures
        update_spec(v, dt).velocity <= v.velocity,
        update_spec(v, dt).velocity >= 0,
{
    let drag = drag_spec(
        AIR_DENSITY_MILLI as int,
        v.velocity as int,
        DRAG_COEFF_MILLI as int,
        REFERENCE_AREA_MILLI as int,
    );
    lemma_mul_bounds_nonneg(
        (AIR_DENSITY_MILLI as int) * (v.velocity as int),
        v.velocity as int,
        (DENSITY_MAX * VEL_MAX) as int,
        VEL_MAX as int,
    );
    lemma_mul_bounds_nonneg(
        (AIR_DENSITY_MILLI as int) * (v.velocity as int) * (v.velocity as int),
        DRAG_COEFF_MILLI as int,
        (DENSITY_MAX * VEL_MAX * VEL_MAX) as int,
        COEFF_MAX as int,
    );
    lemma_mul_bounds_nonneg(
        (AIR_DENSITY_MILLI as int) * (v.velocity as int) * (v.velocity as int) * (
        DRAG_COEFF_MILLI as int),
        REFERENCE_AREA_MILLI as int,
        (DENSITY_MAX * VEL_MAX * VEL_MAX * COEFF_MAX) as int,
        AREA_MAX as int,
    );
    vstd::arithmetic::div_mod::lemma_div_pos_is_pos(
        (AIR_DENSITY_MILLI as int) * (v.velocity as int) * (v.velocity as int) * (
        DRAG_COEFF_MILLI as int) * (REFERENCE_AREA_MILLI as int),
        DRAG_DIVISOR as int,
    );
    assert(drag >= 0);
    lemma_trunc_div_bounds((-drag) * 1000, v.mass as int);
    let acc1 = accel_spec(-drag, v.mass as int);
    assert(acc1 <= 0) by {
        assert((-drag) * 1000 <= 0) by (nonlinear_arith)
            requires
                drag >= 0,
        ;
    }
    assert(acc1 * dt <= 0) by (nonlinear_arith)
        requires
            acc1 <= 0,
            dt >= 0,
    ;
    lemma_trunc_div_bounds(acc1 * dt, 1000);
    let s1 = apply_force_spec(v, -drag, dt);
    assert(s1.velocity <= v.velocity);
    // Zero throttle contributes zero force in both the reverse and the
    // braking branch.
    let rev = if s1.velocity <= 0 {
        true
    } else {
        false
    };
    let s1a = Vehicle { reversed: rev, ..s1 };
    let f = branch_force_spec(s1a, rev);
    lemma_trunc_div_bounds(0, 1000);
    lemma_trunc_div_bounds(0, v.wheel_diameter as int);
    assert(f == 0);
    lemma_trunc_div_bounds(0, v.mass as int);
    let acc2 = accel_spec(0, v.mass as int);
    assert(acc2 == 0);
    assert(acc2 * dt == 0) by (nonlinear_arith)
        requires
            acc2 == 0,
    ;
    let s2 = apply_force_spec(s1a, f, dt);
    assert(s2.velocity <= v.velocity && s2.velocity >= 0);
    let s3 = Vehicle { rotation: rot_step_spec(s2.rotation, s2.turning_angle as int), ..s2 };
    let s4 = Vehicle { pos: pos_step_spec(s3.pos, s3.rotation, s3.velocity as int, s3.reversed), ..s3 };
    assert(update_spec(v, dt) == s4);
}

/// Velocity-squared air resistance opposing motion, exact to the stated
/// integer formula.
pub fn drag_force(
    mass_density_milli: i64,
    flow_velocity: i64,
    reference_area_milli: i64,
    drag_coefficient_milli: i64,
) -> (r: i64)
    requires
        0 <= mass_density_milli <= DENSITY_MAX,
        0 <= flow_velocity <= VEL_MAX,
        0 <= reference_area_milli <= AREA_MAX,
        0 <= drag_coefficient_milli <= COEFF_MAX,
    ensures
        r == drag_spec(
            mass_density_milli as int,
            flow_velocity as int,
            drag_coefficient_milli as int,
            reference_area_milli as int,
        ),
        0 <= r <= DRAG_MAX,
{
    proof {
        lemma_mul_bounds_nonneg(
            mass_density_milli as int,
            flow_velocity as int,
            DENSITY_MAX as int,
            VEL_MAX as int,
        );
        lemma_mul_bounds_nonneg(
            mass_density_milli * flow_velocity,
            flow_velocity as int,
            DENSITY_MAX * VEL_MAX,
            VEL_MAX as int,
        );
        lemma_mul_bounds_nonneg(
            (mass_density_milli * flow_velocity) * flow_velocity,
            drag_coefficient_milli as int,
            DENSITY_MAX * VEL_MAX * VEL_MAX,
            COEFF_MAX as int,
        );
        lemma_mul_bounds_nonneg(
            ((mass_density_milli * flow_velocity) * flow_velocity) * drag_coefficient_milli,
            reference_area_milli as int,
            DENSITY_MAX * VEL_MAX * VEL_MAX * COEFF_MAX,
            AREA_MAX as int,
        );
    }
    let p1: i128 = (mass_density_milli as i128) * (flow_velocity as i128);
    let p2: i128 = p1 * (flow_velocity as i128);
    let p3: i128 = p2 * (drag_coefficient_milli as i128);
    let p4: i128 = p3 * (reference_area_milli as i128);
    let d: i128 = p4 / (DRAG_DIVISOR as i128);
    proof {
        vstd::arithmetic::div_mod::lemma_div_pos_is_pos(p4 as int, DRAG_DIVISOR as int);
        vstd::arithmetic::div_mod::lemma_multiply_divide_le(
            p4 as int,
            DRAG_DIVISOR as int,
            DRAG_MAX as int,
        );
    }
    d as i64
}

} // verus!
