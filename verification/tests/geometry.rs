use autotheft2d::collide::{Collide, Object2D, Rect};
use autotheft2d::geometry::{LineSegment, Ratio, Vec2};
use autotheft2d::weapons::{Projectile, Weapon};

fn seg(x0: i64, y0: i64, x1: i64, y1: i64) -> LineSegment {
    LineSegment::new(Vec2::new(x0, y0), Vec2::new(x1, y1))
}

#[test]
fn intersect_hits_vertical_segment() {
    // The left edge of a box, crossed by a ray along the x axis.
    let s = seg(5, 5, 5, -5);
    let r = s.intersect_ray(Vec2::new(0, 0), Vec2::new(1, 0));
    let (t, n) = r.expect("the ray crosses the segment");
    // t = 5 exactly, as the fraction 50/10.
    assert_eq!(t, Ratio { num: 50, den: 10 });
    assert_eq!(t.num, 5 * t.den);
    // The normal is the segment vector (0,-10) rotated: perpendicular to it.
    assert_eq!(n, Vec2 { x: -10, y: 0 });
}

#[test]
fn intersect_point_lies_on_segment() {
    // The hit point origin + t*dir, computed over the common denominator,
    // falls within the segment's extent.
    let s = seg(5, 5, 5, -5);
    let o = Vec2::new(0, 0);
    let d = Vec2::new(1, 0);
    let (t, _) = s.intersect_ray(o, d).unwrap();
    assert!(t.num >= 0 && t.den > 0);
    let px_num = o.x * t.den + t.num * d.x;
    let py_num = o.y * t.den + t.num * d.y;
    // x: both endpoints sit at x = 5.
    assert_eq!(px_num, 5 * t.den);
    // y: between -5 and 5.
    assert!(-5 * t.den <= py_num && py_num <= 5 * t.den);
}

#[test]
fn intersect_parallel_is_none() {
    // Direction parallel to the segment vector: no hit, wherever the ray is.
    let s = seg(0, 0, 10, 0);
    assert!(s.intersect_ray(Vec2::new(0, 1), Vec2::new(1, 0)).is_none());
    // Collinear counts as parallel too.
    assert!(s.intersect_ray(Vec2::new(-5, 0), Vec2::new(1, 0)).is_none());
    // And a diagonal segment with a matching diagonal direction.
    let sd = seg(0, 0, 3, 3);
    assert!(sd.intersect_ray(Vec2::new(5, 0), Vec2::new(2, 2)).is_none());
}

#[test]
fn intersect_degenerate_segment_is_none() {
    let s = seg(4, 4, 4, 4);
    assert!(s.intersect_ray(Vec2::new(0, 0), Vec2::new(1, 1)).is_none());
}

#[test]
fn intersect_behind_origin_is_none() {
    // The segment sits behind the ray origin: t would be negative.
    let s = seg(5, 5, 5, -5);
    assert!(s.intersect_ray(Vec2::new(10, 0), Vec2::new(1, 0)).is_none());
}

#[test]
fn intersect_miss_is_none() {
    // The infinite line is crossed, but outside the segment (u > 1).
    let s = seg(5, 5, 5, 1);
    assert!(s.intersect_ray(Vec2::new(0, 0), Vec2::new(1, 0)).is_none());
}

#[test]
fn rect_collision_shape_has_four_corner_segments() {
    let rect = Rect::new(0, 0, 10, 10);
    let shape = rect.collision_shape();
    assert_eq!(shape.len(), 4);
    // Consistent winding: top, right, bottom, left, corner to corner.
    assert_eq!(shape[0], seg(0, 0, 10, 0));
    assert_eq!(shape[1], seg(10, 0, 10, 10));
    assert_eq!(shape[2], seg(10, 10, 0, 10));
    assert_eq!(shape[3], seg(0, 10, 0, 0));
}

#[test]
fn rect_collides_ray_reports_nearest_edge() {
    // Box spanning x in [5,15], y in [-5,5]; ray along +x from the origin
    // hits the left edge at t = 5, not the right edge at t = 15.
    let rect = Rect::new(5, -5, 10, 10);
    let hit = rect.collides_ray(Vec2::new(0, 0), Vec2::new(1, 0));
    let (t, n) = hit.expect("the ray enters the box");
    assert_eq!(t.num, 5 * t.den);
    // Normal of the left edge: perpendicular, pointing along -x.
    assert_eq!(n, Vec2 { x: -10, y: 0 });
}

#[test]
fn projectile_check_collision_matches_collides_ray() {
    let rect = Rect::new(5, -5, 10, 10);
    let p = Projectile::new(Vec2::new(0, 0), Vec2::new(1, 0));
    let direct = rect.collides_ray(Vec2::new(0, 0), Vec2::new(1, 0));
    assert_eq!(p.check_collision(&rect), direct);
}

#[test]
fn weapon_shoot_reports_object_index_distance_and_normal() {
    // The box of the scenario above, as a world object; the nearer of two.
    let near = Object2D {
        position: Vec2::new(0, 0),
        shape: vec![seg(5, -5, 15, -5), seg(15, -5, 15, 5), seg(15, 5, 5, 5), seg(5, 5, 5, -5)],
    };
    let far = Object2D {
        position: Vec2::new(20, 0),
        shape: vec![seg(0, -5, 0, 5)],
    };
    let objects = vec![far, near];
    let weapon = Weapon::new(2000);
    let hit = weapon.shoot(Vec2::new(1, 0), &objects);
    let (idx, t, n) = hit.expect("the ray strikes the near box");
    assert_eq!(idx, 1);
    assert_eq!(t.num, 5 * t.den);
    assert_eq!(n, Vec2 { x: -10, y: 0 });
}

#[test]
fn weapon_shoot_misses_everything() {
    let block = Object2D {
        position: Vec2::new(0, 0),
        shape: vec![seg(5, 1, 15, 1)],
    };
    let objects = vec![block];
    let weapon = Weapon::new(2000);
    // Firing along +x at y = 0 passes under the segment.
    assert!(weapon.shoot(Vec2::new(1, 0), &objects).is_none());
}

#[test]
fn object2d_translates_its_shape() {
    let obj = Object2D {
        position: Vec2::new(100, 100),
        shape: vec![seg(0, 0, 50, 0)],
    };
    let world = obj.collision_shape();
    assert_eq!(world.len(), 1);
    assert_eq!(world[0], seg(100, 100, 150, 100));
}
