//! Hit-scan weapon fire: a ray is cast from the weapon and the nearest
//! collidable struck among the world objects is reported, with its distance
//! and surface normal.

use vstd::prelude::*;
use crate::geometry::{seg_den, seg_hit, seg_t_num, LineSegment, Ratio, Vec2};
use crate::collide::{is_first_min_hit, rat_le_seg, rat_lt_seg, Collide, Object2D};

verus! {

/// No segment of `shape` is hit by the ray `(o, d)`.
pub open spec fn no_seg_hit(shape: Seq<LineSegment>, o: Vec2, d: Vec2) -> bool {
    forall|i: int| 0 <= i < shape.len() ==> !(#[trigger] seg_hit(shape[i], o, d))
}

/// Every hit segment of `shape` has ray parameter at least `t`.
pub open spec fn all_hits_ge(shape: Seq<LineSegment>, o: Vec2, d: Vec2, t: Ratio) -> bool {
    forall|i: int|
        0 <= i < shape.len() && #[trigger] seg_hit(shape[i], o, d) ==> rat_le_seg(t, shape[i], o, d)
}

/// Every hit segment of `shape` has ray parameter strictly above `t`.
pub open spec fn all_hits_gt(shape: Seq<LineSegment>, o: Vec2, d: Vec2, t: Ratio) -> bool {
    forall|i: int|
        0 <= i < shape.len() && #[trigger] seg_hit(shape[i], o, d) ==> rat_lt_seg(t, shape[i], o, d)
}

/// Full correctness of a hit-scan across a collection of objects: `None`
/// means nothing is struck anywhere; `Some((idx, t, n))` reports the struck
/// object's index, the globally minimal ray parameter and the struck
/// segment's normal. Ties are broken toward the earlier object, and within
/// one object toward the earlier segment.
pub open spec fn nearest_object_hit(
    objects: Seq<Object2D>,
    o: Vec2,
    d: Vec2,
    r: Option<(usize, Ratio, Vec2)>,
) -> bool {
    match r {
        None => forall|j: int|
            0 <= j < objects.len() ==> no_seg_hit((#[trigger] objects[j]).shape_spec(), o, d),
        Some((idx, t, n)) => {
            &&& t.wf()
            &&& t.is_nonneg()
            &&& 0 <= (idx as int) < objects.len()
            &&& exists|k: int| is_first_min_hit(objects[idx as int].shape_spec(), o, d, k, t, n)
            &&& forall|j: int|
                0 <= j < objects.len() ==> all_hits_ge((#[trigger] objects[j]).shape_spec(), o, d, t)
            &&& forall|j: int|
                0 <= j < idx ==> all_hits_gt((#[trigger] objects[j]).shape_spec(), o, d, t)
        },
    }
}

/// Transitivity of `<=` on positive-denominator fractions.
proof fn lemma_rat_le_trans(an: int, ad: int, bn: int, bd: int, cn: int, cd: int)
    by (nonlinear_arith)
    requires
        ad > 0,
        bd > 0,
        cd > 0,
        an * bd <= bn * ad,
        bn * cd <= cn * bd,
    ensures
        an * cd <= cn * ad,
{
}

/// `a < b` and `b <= c` give `a < c` on positive-denominator fractions.
proof fn lemma_rat_lt_le_trans(an: int, ad: int, bn: int, bd: int, cn: int, cd: int)
    by (nonlinear_arith)
    requires
        ad > 0,
        bd > 0,
        cd > 0,
        an * bd < bn * ad,
        bn * cd <= cn * bd,
    ensures
        an * cd < cn * ad,
{
}

/// Queries every object and keeps the globally nearest hit: per-object
/// results are re-minimized across objects, so the reported parameter is the
/// minimum over all segments of all objects.
pub fn find_nearest_hit(objects: &Vec<Object2D>, ray_origin: Vec2, ray_direction: Vec2) -> (r:
    Option<(usize, Ratio, Vec2)>)
    requires
        ray_origin.in_bounds(),
        ray_direction.in_bounds(),
        forall|j: int| 0 <= j < objects@.len() ==> (#[trigger] objects@[j]).shape_wf(),
    ensures
        nearest_object_hit(objects@, ray_origin, ray_direction, r),
{
    let mut best: Option<(usize, Ratio, Vec2)> = None;
    let mut i: usize = 0;
    while i < objects.len()
        invariant
            0 <= i <= objects@.len(),
            ray_origin.in_bounds(),
            ray_direction.in_bounds(),
            forall|j: int| 0 <= j < objects@.len() ==> (#[trigger] objects@[j]).shape_wf(),
            match best {
                None => forall|j: int|
                    0 <= j < i ==> no_seg_hit(
                        (#[trigger] objects@[j]).shape_spec(),
                        ray_origin,
                        ray_direction,
                    ),
                Some((idx, t, n)) => {
                    &&& t.wf()
                    &&& t.is_nonneg()
                    &&& 0 <= (idx as int) < i
                    &&& exists|k: int|
                        is_first_min_hit(
                            objects@[idx as int].shape_spec(),
                            ray_origin,
                            ray_direction,
                            k,
                            t,
                            n,
                        )
                    &&& forall|j: int|
                        0 <= j < i ==> all_hits_ge(
                            (#[trigger] objects@[j]).shape_spec(),
                            ray_origin,
                            ray_direction,
                            t,
                        )
                    &&& forall|j: int|
                        0 <= j < idx ==> all_hits_gt(
                            (#[trigger] objects@[j]).shape_spec(),
                            ray_origin,
                            ray_direction,
                            t,
                        )
                },
            },
        decreases objects@.len() - i,
    {
        let object = &objects[i];
        if let Some((t, normal)) = object.collides_ray(ray_origin, ray_direction) {
            let replace = match &best {
                None => true,
                Some((_, best_t, _)) => t.lt(best_t),
            };
            if replace {
                proof {
                    if let Some((bidx, bt, bn)) = best {
                        // The new hit is strictly below the old minimum, hence
                        // strictly below every hit of every earlier object.
                        assert forall|j: int| 0 <= j < i implies all_hits_gt(
                            (#[trigger] objects@[j]).shape_spec(),
                            ray_origin,
                            ray_direction,
                            t,
                        ) by {
                            let shape = objects@[j].shape_spec();
                            assert forall|si: int|
                                0 <= si < shape.len() && #[trigger] seg_hit(
                                    shape[si],
                                    ray_origin,
                                    ray_direction,
                                ) implies rat_lt_seg(t, shape[si], ray_origin, ray_direction) by {
                                lemma_rat_lt_le_trans(
                                    t.num as int,
                                    t.den as int,
                                    bt.num as int,
                                    bt.den as int,
                                    seg_t_num(shape[si], ray_origin, ray_direction),
                                    seg_den(shape[si], ray_direction),
                                );
                            }
                        }
                    }
                }
                best = Some((i, t, normal));
            } else {
                proof {
                    let (bidx, bt, bn) = best->Some_0;
                    // The running minimum is at most the new object's own
                    // minimum, hence at most each of its hits.
                    assert forall|si: int|
                        0 <= si < object.shape_spec().len() && #[trigger] seg_hit(
                            object.shape_spec()[si],
                            ray_origin,
                            ray_direction,
                        ) implies rat_le_seg(
                        bt,
                        object.shape_spec()[si],
                        ray_origin,
                        ray_direction,
                    ) by {
                        lemma_rat_le_trans(
                            bt.num as int,
                            bt.den as int,
                            t.num as int,
                            t.den as int,
                            seg_t_num(object.shape_spec()[si], ray_origin, ray_direction),
                            seg_den(object.shape_spec()[si], ray_direction),
                        );
                    }
                    assert(all_hits_ge(object.shape_spec(), ray_origin, ray_direction, bt));
                }
            }
        }
        // The updated running minimum still satisfies the invariant over the
        // extended prefix.
        proof {
            match best {
                None => {
                    assert(forall|j: int|
                        0 <= j < i + 1 ==> no_seg_hit(
                            (#[trigger] objects@[j]).shape_spec(),
                            ray_origin,
                            ray_direction,
                        ));
                },
                Some((idx, t2, n2)) => {
                    assert(t2.wf());
                    assert(t2.is_nonneg());
                    assert(0 <= (idx as int) < i + 1);
                    assert(exists|k: int|
                        is_first_min_hit(
                            objects@[idx as int].shape_spec(),
                            ray_origin,
                            ray_direction,
                            k,
                            t2,
                            n2,
                        ));
                    assert(forall|j: int|
                        0 <= j < i + 1 ==> all_hits_ge(
                            (#[trigger] objects@[j]).shape_spec(),
                            ray_origin,
                            ray_direction,
                            t2,
                        ));
                    assert(forall|j: int|
                        0 <= j < idx ==> all_hits_gt(
                            (#[trigger] objects@[j]).shape_spec(),
                            ray_origin,
                            ray_direction,
                            t2,
                        ));
                },
            }
        }
        i = i + 1;
    }
    best
}

/// An instantaneous hit-scan ray: origin plus direction.
///
/// The direction is kept exactly as given — ray parameters are reported in
/// multiples of it, so no normalization is needed (nor possible, exactly, in
/// integers).
pub struct Projectile {
    pub origin: Vec2,
    pub direction: Vec2,
}

impl Projectile {
    pub fn new(origin: Vec2, direction: Vec2) -> (r: Projectile)
        ensures
            r.origin == origin,
            r.direction == direction,
    {
        Self { origin, direction }
    }

    /// The nearest hit of this projectile's ray against one collidable.
    pub fn check_collision<T: Collide>(&self, object: &T) -> (r: Option<(Ratio, Vec2)>)
        requires
            object.shape_wf(),
            self.origin.in_bounds(),
            self.direction.in_bounds(),
        ensures
            crate::collide::nearest_hit(object.shape_spec(), self.origin, self.direction, r),
    {
        object.collides_ray(self.origin, self.direction)
    }
}

/// A weapon at a world position with a firing cooldown (milliseconds).
pub struct Weapon {
    pub pos: Vec2,
    pub fire_cooldown_ms: i64,
}

impl Weapon {
    pub fn new(fire_cooldown_ms: i64) -> (r: Weapon)
        ensures
            r.pos == (Vec2 { x: 0, y: 0 }),
            r.fire_cooldown_ms == fire_cooldown_ms,
    {
        Self { pos: Vec2 { x: 0, y: 0 }, fire_cooldown_ms }
    }

    /// Fires a hit-scan ray from the weapon's position and reports the
    /// nearest object struck, its distance along the ray and the surface
    /// normal at the hit.
    pub fn shoot(&self, direction: Vec2, objects: &Vec<Object2D>) -> (r: Option<
        (usize, Ratio, Vec2),
    >)
        requires
            self.pos.in_bounds(),
            direction.in_bounds(),
            forall|j: int| 0 <= j < objects@.len() ==> (#[trigger] objects@[j]).shape_wf(),
        ensures
            nearest_object_hit(objects@, self.pos, direction, r),
    {
        find_nearest_hit(objects, self.pos, direction)
    }
}

} // verus!
