use autotheft2d::collide::Object2D;
use autotheft2d::controller::ControllerDirectionState;
use autotheft2d::geometry::{LineSegment, Vec2};
use autotheft2d::player::Player;
use autotheft2d::tilemap::{TileMap, TileVariant};
use autotheft2d::util::SpiralIterator;
use autotheft2d::vehicle::Vehicle;
use autotheft2d::{Direction, DirectionIter, World};

#[test]
fn spiral_first_four_cells_from_center() {
    // Right, then down, down... per the right->down->left->up layer rule.
    let mut it = SpiralIterator::new((5, 5));
    assert_eq!(it.next(), Some((6, 5)));
    assert_eq!(it.next(), Some((6, 6)));
    assert_eq!(it.next(), Some((5, 6)));
    assert_eq!(it.next(), Some((4, 6)));
}

#[test]
fn spiral_first_ring_closes_around_center() {
    let mut it = SpiralIterator::new((5, 5));
    let expected = [
        (6, 5),
        (6, 6),
        (5, 6),
        (4, 6),
        (4, 5),
        (4, 4),
        (5, 4),
        (6, 4),
        (7, 4),
    ];
    for cell in expected {
        assert_eq!(it.next(), Some(cell));
    }
}

#[test]
fn spiral_ends_at_negative_coordinates_for_good() {
    let mut it = SpiralIterator::new((0, 0));
    assert_eq!(it.next(), Some((1, 0)));
    assert_eq!(it.next(), Some((1, 1)));
    assert_eq!(it.next(), Some((0, 1)));
    // The next step would leave the quadrant: the sequence has ended.
    assert_eq!(it.next(), None);
    assert_eq!(it.next(), None);
    assert_eq!(it.next(), None);
}

#[test]
fn tilemap_tile_index_centers_the_grid() {
    let map = TileMap::new(1024);
    // The origin falls in the central tile.
    assert_eq!(map.to_tile_index_pos(Vec2::new(0, 0)), Some((512, 512)));
    // Truncation toward zero: positions just left of the origin share it.
    assert_eq!(map.to_tile_index_pos(Vec2::new(-1, -1)), Some((512, 512)));
    // One full tile stride to the east, one to the north.
    assert_eq!(map.to_tile_index_pos(Vec2::new(600_000, -600_000)), Some((513, 511)));
}

#[test]
fn tilemap_out_of_range_position_is_none() {
    let map = TileMap::new(10);
    assert_eq!(map.to_tile_index_pos(Vec2::new(100_000_000, 0)), None);
}

#[test]
fn tilemap_tile_world_pos_inverts_the_centering() {
    let map = TileMap::new(1024);
    assert_eq!(map.tile_world_pos(512, 512), Vec2 { x: 0, y: 0 });
    assert_eq!(
        map.tile_world_pos(0, 0),
        Vec2 { x: -512 * 512_000, y: -512 * 512_000 }
    );
}

#[test]
fn tilemap_draw_order_is_center_then_spiral() {
    let map = TileMap::new(1024);
    let order = map.draw_order((5, 5), 2);
    assert_eq!(order, vec![(5, 5), (6, 5), (6, 6), (5, 6), (4, 6)]);
}

#[test]
fn tilemap_draw_order_stops_at_the_quadrant_edge() {
    let map = TileMap::new(1024);
    let order = map.draw_order((0, 0), 2);
    assert_eq!(order, vec![(0, 0), (1, 0), (1, 1), (0, 1)]);
}

#[test]
fn tile_variant_texture_offsets() {
    assert_eq!(TileVariant::full_crossing().get_x_texture_offset(), 6 * 32);
    assert_eq!(TileVariant::empty().get_x_texture_offset(), 11 * 32);
    assert_eq!(TileVariant::new(true, false, true, false).get_x_texture_offset(), 0);
    assert_eq!(TileVariant::new(false, true, false, true).get_x_texture_offset(), 32);
}

#[test]
fn controller_decodes_all_eight_facings() {
    let cases = [
        ((true, false, false, false), Some(Direction::North)),
        ((true, false, false, true), Some(Direction::NorthEast)),
        ((false, false, false, true), Some(Direction::East)),
        ((false, false, true, true), Some(Direction::SouthEast)),
        ((false, false, true, false), Some(Direction::South)),
        ((false, true, true, false), Some(Direction::SouthWest)),
        ((false, true, false, false), Some(Direction::West)),
        ((true, true, false, false), Some(Direction::NorthWest)),
        ((false, false, false, false), None),
        ((true, false, true, false), None),
        ((true, true, true, true), None),
    ];
    for ((up, left, down, right), expected) in cases {
        let state = ControllerDirectionState { up, left, down, right };
        assert_eq!(state.get_facing(), expected);
    }
}

#[test]
fn direction_vectors_and_components() {
    assert_eq!(Direction::North.as_vector(), Vec2 { x: 0, y: -1_000_000 });
    assert_eq!(Direction::East.as_vector(), Vec2 { x: 1_000_000, y: 0 });
    assert_eq!(Direction::SouthWest.as_vector(), Vec2 { x: -707_107, y: 707_107 });
    assert!(Direction::NorthEast.has_north());
    assert!(Direction::NorthEast.has_east());
    assert!(!Direction::NorthEast.has_south());
    assert!(!Direction::NorthEast.has_west());
}

#[test]
fn direction_iter_cycles_clockwise() {
    let mut it = DirectionIter::new(Direction::North);
    let expected = [
        Direction::NorthEast,
        Direction::East,
        Direction::SouthEast,
        Direction::South,
        Direction::SouthWest,
        Direction::West,
        Direction::NorthWest,
        Direction::North,
    ];
    for d in expected {
        assert_eq!(it.next(), Some(d));
    }
}

#[test]
fn player_enters_drives_and_leaves_a_vehicle() {
    let mut world = World::new(TileMap::new(16));
    world.add_vehicle(Vehicle::new());
    let mut player = Player::new();

    player.enter_vehicle(0, &mut world);
    assert_eq!(player.in_vehicle, Some(0));
    assert!(world.vehicles[0].entered);

    // While occupying, movement input drives the vehicle, not the player.
    let player_pos_before = player.pos;
    player.handle_controls(&mut world, Some(Direction::North), 1000);
    assert_eq!(player.pos, player_pos_before);
    assert_eq!(world.vehicles[0].throttle, 1000);

    // Tick the vehicle; the player's position mirrors it after update.
    world.vehicles[0].update(1000);
    player.update(&world);
    assert_eq!(player.pos, world.vehicles[0].pos);
    let vehicle_pos = world.vehicles[0].pos;

    // Leaving: on-foot control returns at the vehicle's position, and the
    // vehicle's controls reset to neutral.
    player.leave_vehicle(&mut world);
    assert_eq!(player.in_vehicle, None);
    assert_eq!(player.pos, vehicle_pos);
    assert_eq!(world.vehicles[0].throttle, 0);
    assert_eq!(world.vehicles[0].turning_angle, 0);
    assert!(!world.vehicles[0].entered);
}

#[test]
fn player_walks_on_foot() {
    let mut world = World::new(TileMap::new(16));
    let mut player = Player::new();
    // One second east at 300 units/s.
    player.handle_controls(&mut world, Some(Direction::East), 1000);
    assert_eq!(player.facing, Direction::East);
    assert_eq!(player.pos, Vec2 { x: 300_000, y: 0 });
    // A diagonal second covers ~sqrt(2)/2 of the speed on each axis.
    player.handle_controls(&mut world, Some(Direction::NorthEast), 1000);
    assert_eq!(player.pos, Vec2 { x: 300_000 + 212_132, y: -212_132 });
    // No input: no movement.
    let before = player.pos;
    player.handle_controls(&mut world, None, 1000);
    assert_eq!(player.pos, before);
}

#[test]
fn world_find_nearest_collidable_across_objects() {
    let mut world = World::new(TileMap::new(16));
    world.add_collideable(Object2D {
        position: Vec2::new(0, 0),
        shape: vec![LineSegment::new(Vec2::new(30, -5), Vec2::new(30, 5))],
    });
    world.add_collideable(Object2D {
        position: Vec2::new(0, 0),
        shape: vec![LineSegment::new(Vec2::new(12, -5), Vec2::new(12, 5))],
    });
    let hit = world.find_nearest_collidable(Vec2::new(0, 0), Vec2::new(1, 0));
    let (idx, t, _n) = hit.expect("both walls cross the ray");
    assert_eq!(idx, 1);
    assert_eq!(t.num, 12 * t.den);
}
