//! The collision capability: anything that can produce its world-space
//! boundary as line segments answers nearest-ray-hit queries against it.

use vstd::prelude::*;
use crate::geometry::{
    seg_den, seg_hit, seg_t_num, GEOM_BOUND, LineSegment, Ratio, Vec2,
};

verus! {

/// Coordinate bound for the parts of a composite object (owner position and
/// local segments), chosen so their sums stay within `GEOM_BOUND`.
pub const OBJ_BOUND: i64 = 500_000_000;

/// `(t, n)` is the intersection that segment `s` reports for the ray
/// `(o, d)`.
pub open spec fn is_hit_result(s: LineSegment, o: Vec2, d: Vec2, t: Ratio, n: Vec2) -> bool {
    &&& seg_hit(s, o, d)
    &&& t.num == seg_t_num(s, o, d)
    &&& t.den == seg_den(s, d)
    &&& n.x == s.end.y - s.start.y
    &&& n.y == -(s.end.x - s.start.x)
}

/// The fraction `t` is at most segment `s`'s ray parameter.
pub open spec fn rat_le_seg(t: Ratio, s: LineSegment, o: Vec2, d: Vec2) -> bool {
    t.num * seg_den(s, d) <= seg_t_num(s, o, d) * t.den
}

/// The fraction `t` is strictly below segment `s`'s ray parameter.
pub open spec fn rat_lt_seg(t: Ratio, s: LineSegment, o: Vec2, d: Vec2) -> bool {
    t.num * seg_den(s, d) < seg_t_num(s, o, d) * t.den
}

/// `(t, n)` is the hit of the first segment of `shape` attaining the minimum
/// ray parameter among all hit segments (ties are broken toward the earlier
/// segment).
pub open spec fn is_first_min_hit(
    shape: Seq<LineSegment>,
    o: Vec2,
    d: Vec2,
    k: int,
    t: Ratio,
    n: Vec2,
) -> bool {
    &&& 0 <= k < shape.len()
    &&& is_hit_result(shape[k], o, d, t, n)
    &&& forall|j: int|
        0 <= j < shape.len() && #[trigger] seg_hit(shape[j], o, d) ==> rat_le_seg(
            t,
            shape[j],
            o,
            d,
        )
    &&& forall|j: int|
        0 <= j < k && #[trigger] seg_hit(shape[j], o, d) ==> rat_lt_seg(t, shape[j], o, d)
}

/// Full correctness of a nearest-hit query against `shape`: `None` means no
/// segment is hit, `Some` carries the first minimal hit.
pub open spec fn nearest_hit(shape: Seq<LineSegment>, o: Vec2, d: Vec2, r: Option<
    (Ratio, Vec2),
>) -> bool {
    match r {
        None => forall|i: int| 0 <= i < shape.len() ==> !(#[trigger] seg_hit(shape[i], o, d)),
        Some((t, n)) => {
            &&& t.wf()
            &&& t.is_nonneg()
            &&& exists|k: int| is_first_min_hit(shape, o, d, k, t, n)
        },
    }
}

/// Transitivity used when a closer hit replaces the running minimum:
/// `a < b` and `b <= c` (as positive-denominator fractions) give `a < c`.
proof fn lemma_rat_lt_le_trans(an: int, ad: int, bn: int, bd: int, cn: int, cd: int)
    by (nonlinear_arith)
    requires
        ad > 0,
        bd > 0,
        cd > 0,
        an * bd < bn * ad,
        bn * cd <= cn * bd,
    ensures
        an * cd < cn * ad,
{
}

/// The collision capability: a boundary of world-space segments, plus the
/// nearest-ray-hit query every such boundary answers.
pub trait Collide: Sized {
    /// Mathematical world-space boundary.
    spec fn shape_spec(&self) -> Seq<LineSegment>;

    /// The object's state keeps its boundary within the geometry bounds.
    spec fn shape_wf(&self) -> bool;

    /// A well-formed object's boundary lies within `GEOM_BOUND`.
    proof fn lemma_shape_in_bounds(&self)
        requires
            self.shape_wf(),
        ensures
            forall|i: int|
                0 <= i < self.shape_spec().len() ==> (#[trigger] self.shape_spec()[i]).in_bounds(),
    ;

    /// Produces the world-space boundary.
    fn collision_shape(&self) -> (v: Vec<LineSegment>)
        requires
            self.shape_wf(),
        ensures
            v@ == self.shape_spec(),
    ;

    /// Scans every boundary segment and keeps the minimum non-negative ray
    /// parameter and its normal; the first segment encountered wins ties.
    fn collides_ray(&self, ray_origin: Vec2, ray_direction: Vec2) -> (r: Option<(Ratio, Vec2)>)
        requires
            self.shape_wf(),
            ray_origin.in_bounds(),
            ray_direction.in_bounds(),
        ensures
            nearest_hit(self.shape_spec(), ray_origin, ray_direction, r),
    {
        proof {
            self.lemma_shape_in_bounds();
        }
        let shape = self.collision_shape();
        let mut closest_hit: Option<(Ratio, Vec2)> = None;
        let ghost mut best_k: int = 0;
        let mut i: usize = 0;
        while i < shape.len()
            invariant
                shape@ == self.shape_spec(),
                0 <= i <= shape.len(),
                ray_origin.in_bounds(),
                ray_direction.in_bounds(),
                forall|j: int|
                    0 <= j < shape@.len() ==> (#[trigger] shape@[j]).in_bounds(),
                match closest_hit {
                    None => forall|j: int|
                        0 <= j < i ==> !(#[trigger] seg_hit(shape@[j], ray_origin, ray_direction)),
                    Some((t, n)) => {
                        &&& t.wf()
                        &&& t.is_nonneg()
                        &&& 0 <= best_k < i
                        &&& is_hit_result(shape@[best_k], ray_origin, ray_direction, t, n)
                        &&& forall|j: int|
                            0 <= j < i && #[trigger] seg_hit(shape@[j], ray_origin, ray_direction)
                                ==> rat_le_seg(t, shape@[j], ray_origin, ray_direction)
                        &&& forall|j: int|
                            0 <= j < best_k && #[trigger] seg_hit(
                                shape@[j],
                                ray_origin,
                                ray_direction,
                            ) ==> rat_lt_seg(t, shape@[j], ray_origin, ray_direction)
                    },
                },
            decreases shape.len() - i,
        {
            let segment = shape[i];
            if let Some((t, normal)) = segment.intersect_ray(ray_origin, ray_direction) {
                let replace = match &closest_hit {
                    None => true,
                    Some((best_t, _)) => t.lt(best_t),
                };
                if replace {
                    proof {
                        if let Some((best_t, _)) = closest_hit {
                            // The new hit is strictly below the old minimum,
                            // hence strictly below every earlier hit.
                            assert forall|j: int|
                                0 <= j < i && #[trigger] seg_hit(
                                    shape@[j],
                                    ray_origin,
                                    ray_direction,
                                ) implies rat_lt_seg(t, shape@[j], ray_origin, ray_direction) by {
                                lemma_rat_lt_le_trans(
                                    t.num as int,
                                    t.den as int,
                                    best_t.num as int,
                                    best_t.den as int,
                                    seg_t_num(shape@[j], ray_origin, ray_direction),
                                    seg_den(shape@[j], ray_direction),
                                );
                            }
                        }
                        best_k = i as int;
                    }
                    closest_hit = Some((t, normal));
                }
            }
            i = i + 1;
        }
        proof {
            if let Some((t, n)) = closest_hit {
                assert(is_first_min_hit(self.shape_spec(), ray_origin, ray_direction, best_k, t, n));
            }
        }
        closest_hit
    }
}

/// An axis-aligned rectangle given by its top-left corner and its extent.
#[derive(Clone, Copy, Debug, PartialEq, Eq, Structural)]
pub struct Rect {
    pub x: i64,
    pub y: i64,
    pub w: i64,
    pub h: i64,
}

impl Rect {
    /// Non-negative extent, and all four corners within the geometry bounds.
    pub open spec fn wf(self) -> bool {
        &&& 0 <= self.w
        &&& 0 <= self.h
        &&& -GEOM_BOUND <= self.x
        &&& self.x + self.w <= GEOM_BOUND
        &&& -GEOM_BOUND <= self.y
        &&& self.y + self.h <= GEOM_BOUND
    }

    pub open spec fn top_left(self) -> Vec2 {
        Vec2 { x: self.x, y: self.y }
    }

    pub open spec fn top_right(self) -> Vec2 {
        Vec2 { x: (self.x + self.w) as i64, y: self.y }
    }

    pub open spec fn bottom_right(self) -> Vec2 {
        Vec2 { x: (self.x + self.w) as i64, y: (self.y + self.h) as i64 }
    }

    pub open spec fn bottom_left(self) -> Vec2 {
        Vec2 { x: self.x, y: (self.y + self.h) as i64 }
    }

    pub fn new(x: i64, y: i64, w: i64, h: i64) -> (r: Rect)
        ensures
            r == (Rect { x, y, w, h }),
    {
        Rect { x, y, w, h }
    }
}

impl Collide for Rect {
    /// The four sides, corner to corner, in consistent clockwise winding:
    /// top, right, bottom, left.
    open spec fn shape_spec(&self) -> Seq<LineSegment> {
        seq![
            LineSegment { start: self.top_left(), end: self.top_right() },
            LineSegment { start: self.top_right(), end: self.bottom_right() },
            LineSegment { start: self.bottom_right(), end: self.bottom_left() },
            LineSegment { start: self.bottom_left(), end: self.top_left() },
        ]
    }

    open spec fn shape_wf(&self) -> bool {
        self.wf()
    }

    proof fn lemma_shape_in_bounds(&self) {
    }

    fn collision_shape(&self) -> (v: Vec<LineSegment>) {
        let top_left = Vec2::new(self.x, self.y);
        let top_right = Vec2::new(self.x + self.w, self.y);
        let bottom_right = Vec2::new(self.x + self.w, self.y + self.h);
        let bottom_left = Vec2::new(self.x, self.y + self.h);

        let v = vec![
            LineSegment::new(top_left, top_right),
            LineSegment::new(top_right, bottom_right),
            LineSegment::new(bottom_right, bottom_left),
            LineSegment::new(bottom_left, top_left),
        ];
        proof {
            assert(v@ =~= self.shape_spec());
        }
        v
    }
}

/// Translates a segment given in local coordinates by an owner's position.
pub open spec fn translate_seg(s: LineSegment, p: Vec2) -> LineSegment {
    LineSegment {
        start: Vec2 { x: (s.start.x + p.x) as i64, y: (s.start.y + p.y) as i64 },
        end: Vec2 { x: (s.end.x + p.x) as i64, y: (s.end.y + p.y) as i64 },
    }
}

/// A vector lies within the composite-object coordinate bound.
pub open spec fn obj_vec_in_bounds(v: Vec2) -> bool {
    -OBJ_BOUND <= v.x <= OBJ_BOUND && -OBJ_BOUND <= v.y <= OBJ_BOUND
}

/// A segment lies within the composite-object coordinate bound.
pub open spec fn obj_seg_in_bounds(s: LineSegment) -> bool {
    obj_vec_in_bounds(s.start) && obj_vec_in_bounds(s.end)
}

/// An arbitrary polygonal object: a boundary in local space, owned by a
/// position that translates it into world space at query time. The segment
/// list may form a closed or an intentionally open boundary; no automatic
/// closure is performed.
pub struct Object2D {
    pub position: Vec2,
    pub shape: Vec<LineSegment>,
}

impl Collide for Object2D {
    open spec fn shape_spec(&self) -> Seq<LineSegment> {
        self.shape@.map_values(|s: LineSegment| translate_seg(s, self.position))
    }

    open spec fn shape_wf(&self) -> bool {
        &&& obj_vec_in_bounds(self.position)
        &&& forall|i: int| 0 <= i < self.shape@.len() ==> obj_seg_in_bounds(#[trigger] self.shape@[i])
    }

    proof fn lemma_shape_in_bounds(&self) {
        assert forall|i: int|
            0 <= i < self.shape_spec().len() implies (#[trigger] self.shape_spec()[i]).in_bounds()
        by {
            assert(obj_seg_in_bounds(self.shape@[i]));
        }
    }

    fn collision_shape(&self) -> (v: Vec<LineSegment>) {
        let mut v: Vec<LineSegment> = Vec::new();
        let mut i: usize = 0;
        while i < self.shape.len()
            invariant
                self.shape_wf(),
                0 <= i <= self.shape@.len(),
                v@ == self.shape@.take(i as int).map_values(
                    |s: LineSegment| translate_seg(s, self.position),
                ),
            decreases self.shape@.len() - i,
        {
            let s = self.shape[i];
            v.push(
                LineSegment::new(
                    Vec2::new(s.start.x + self.position.x, s.start.y + self.position.y),
                    Vec2::new(s.end.x + self.position.x, s.end.y + self.position.y),
                ),
            );
            proof {
                assert(self.shape@.take(i + 1).map_values(
                    |s: LineSegment| translate_seg(s, self.position),
                ) =~= self.shape@.take(i as int).map_values(
                    |s: LineSegment| translate_seg(s, self.position),
                ).push(translate_seg(self.shape@[i as int], self.position)));
            }
            i = i + 1;
        }
        proof {
            assert(self.shape@.take(self.shape@.len() as int) =~= self.shape@);
        }
        v
    }
}

} // verus!
