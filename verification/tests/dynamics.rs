use autotheft2d::gearbox::{GearError, Gearbox};
use autotheft2d::vehicle::{drag_force, Vehicle};
use autotheft2d::Direction;

#[test]
fn gearbox_six_step_starts_in_first_gear() {
    let g = Gearbox::six_step();
    assert_eq!(g.current_gear_num(), 0);
    assert_eq!(g.gear_ratio(), 8000);
    assert_eq!(g.current_gear().ratio, 8000);
}

#[test]
fn gearbox_shift_down_at_bottom_fails_and_leaves_state() {
    let mut g = Gearbox::six_step();
    assert_eq!(g.shift_down(), Err(GearError::InvalidGear));
    assert_eq!(g.current_gear_num(), 0);
    assert_eq!(g.gear_ratio(), 8000);
}

#[test]
fn gearbox_shift_up_fails_on_sixth_call_at_top_gear() {
    let mut g = Gearbox::six_step();
    let expected_ratios = [2000, 1400, 1000, 800, 600];
    for (i, ratio) in expected_ratios.iter().enumerate() {
        assert_eq!(g.shift_up(), Ok(()));
        assert_eq!(g.current_gear_num(), i + 1);
        assert_eq!(g.gear_ratio(), *ratio);
    }
    // The sixth shift up has no gear to go to.
    assert_eq!(g.shift_up(), Err(GearError::InvalidGear));
    assert_eq!(g.current_gear_num(), 5);
    assert_eq!(g.gear_ratio(), 600);
}

#[test]
fn gearbox_shift_to_out_of_range_fails() {
    let mut g = Gearbox::six_step();
    assert_eq!(g.shift_to(3), Ok(()));
    assert_eq!(g.current_gear_num(), 3);
    assert_eq!(g.shift_to(6), Err(GearError::InvalidGear));
    assert_eq!(g.current_gear_num(), 3);
}

#[test]
fn drag_force_exact_values() {
    // 0.5 * 1.293 * v^2 * 0.4 * 1.3 at 10 m/s (10_000 mm/s): 33.6 N -> 33.
    assert_eq!(drag_force(1293, 10_000, 1300, 400), 33);
    // At rest there is no drag.
    assert_eq!(drag_force(1293, 0, 1300, 400), 0);
    // At 100 m/s: 3361.8 N -> 3361.
    assert_eq!(drag_force(1293, 100_000, 1300, 400), 3361);
}

#[test]
fn vehicle_at_rest_full_throttle_accelerates() {
    let mut v = Vehicle::new();
    v.handle_controls(Some(Direction::North));
    assert_eq!(v.throttle, 1000);
    assert_eq!(v.turning_angle, 0);

    // One 1 s tick from rest: no drag, force = 650 Nm * 8.0 / 0.4 m = 13 kN,
    // acceleration = 10 m/s^2, velocity = 10 m/s.
    v.update(1000);
    assert_eq!(v.acceleration, 10_000);
    assert_eq!(v.velocity, 10_000);
    assert!(!v.reversed);
    // Facing up, no steering: the vehicle moved 10 units up.
    assert_eq!(v.pos.x, 0);
    assert_eq!(v.pos.y, -10_000);
    assert_eq!(v.rotation.x, 0);
    assert_eq!(v.rotation.y, -1_000_000);

    // Second tick: drag (33 N) costs 25 mm/s, the engine adds 10 m/s.
    v.update(1000);
    assert_eq!(v.velocity, 19_975);

    // Velocity grows monotonically over further ticks at this speed.
    let mut prev = v.velocity;
    for _ in 0..10 {
        v.update(1000);
        assert!(v.velocity > prev);
        prev = v.velocity;
    }
}

#[test]
fn vehicle_coasting_slows_and_never_goes_negative() {
    let mut v = Vehicle::new();
    v.handle_controls(Some(Direction::North));
    for _ in 0..5 {
        v.update(1000);
    }
    assert!(v.velocity > 0);

    // Throttle released: drag alone, velocity never increases and never
    // drops below zero.
    v.handle_controls(None);
    assert_eq!(v.throttle, 0);
    let mut prev = v.velocity;
    for _ in 0..200 {
        v.update(1000);
        assert!(v.velocity <= prev);
        assert!(v.velocity >= 0);
        prev = v.velocity;
    }
}

#[test]
fn vehicle_reverse_flag_engages_at_standstill() {
    let mut v = Vehicle::new();
    // Reverse command from rest: the reversed flag engages, but the reverse
    // force is signed negative and the velocity is clamped at zero, so the
    // vehicle holds still.
    v.handle_controls(Some(Direction::South));
    assert_eq!(v.throttle, -1000);
    v.update(1000);
    assert!(v.reversed);
    assert_eq!(v.velocity, 0);
    // Reverse force -1000 N over 1.3 t: -769 mm/s^2, stored for display.
    assert_eq!(v.acceleration, -769);
    assert_eq!(v.pos, autotheft2d::geometry::Vec2 { x: 0, y: 0 });
}

#[test]
fn vehicle_steering_rotates_orientation() {
    let mut v = Vehicle::new();
    v.handle_controls(Some(Direction::NorthEast));
    assert_eq!(v.throttle, 1000);
    assert!(v.turning_angle > 0);
    let (x0, y0) = (v.rotation.x, v.rotation.y);
    v.update(1000);
    // One yaw step right from straight up: cos/sin of the step angle.
    assert_eq!(v.rotation.x, (x0 * 999_722 - y0 * 23_560) / 1_000_000);
    assert_eq!(v.rotation.y, (x0 * 23_560 + y0 * 999_722) / 1_000_000);
    // The orientation never grows beyond unit length (squared, fixed point).
    let norm2 = v.rotation.x * v.rotation.x + v.rotation.y * v.rotation.y;
    assert!(norm2 <= 1_000_000_000_000);
}

#[test]
fn vehicle_control_mapping_covers_all_facings() {
    let cases = [
        (Some(Direction::North), 1000, 0),
        (Some(Direction::NorthEast), 1000, 785_398),
        (Some(Direction::East), 0, 785_398),
        (Some(Direction::SouthEast), -1000, 785_398),
        (Some(Direction::South), -1000, 0),
        (Some(Direction::SouthWest), -1000, -785_398),
        (Some(Direction::West), 0, -785_398),
        (Some(Direction::NorthWest), 1000, -785_398),
        (None, 0, 0),
    ];
    for (facing, throttle, turning) in cases {
        let mut v = Vehicle::new();
        v.handle_controls(facing);
        assert_eq!(v.throttle, throttle);
        assert_eq!(v.turning_angle, turning);
    }
}

#[test]
fn vehicle_velocity_kmh_conversion() {
    let mut v = Vehicle::new();
    assert_eq!(v.velocity_kmh_milli(), 0);
    v.velocity = 10_000;  // 10 m/s = 36 km/h
    assert_eq!(v.velocity_kmh_milli(), 36_000);
}
