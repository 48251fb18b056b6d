//! 2D integer geometry: vectors, exact rational ray parameters, and the
//! ray/segment intersection routine.
//!
//! Coordinates are plain `i64` world units. To keep every product inside
//! `i64`, all geometric inputs are required to lie within `GEOM_BOUND` of the
//! origin; ray parameters are reported as exact fractions, never divided out.

use vstd::prelude::*;

verus! {

/// Largest coordinate magnitude the geometry accepts.
pub const GEOM_BOUND: i64 = 1_000_000_000;

/// A 2D vector (or point) with integer coordinates.
#[derive(Clone, Copy, Debug, PartialEq, Eq, Structural)]
pub struct Vec2 {
    pub x: i64,
    pub y: i64,
}

impl Vec2 {
    pub fn new(x: i64, y: i64) -> (r: Vec2)
        ensures
            r.x == x,
            r.y == y,
    {
        Vec2 { x, y }
    }

    /// The vector lies within the geometry's coordinate bound.
    pub open spec fn in_bounds(self) -> bool {
        -GEOM_BOUND <= self.x <= GEOM_BOUND && -GEOM_BOUND <= self.y <= GEOM_BOUND
    }
}

/// Integer division truncating toward zero, the rounding used by all
/// executable divisions in this crate.
pub open spec fn trunc_div(a: int, b: int) -> int
    recommends
        b > 0,
{
    if a >= 0 {
        a / b
    } else {
        -((-a) / b)
    }
}

/// Truncating division on machine integers.
///
/// The bound on `a` leaves room to negate it.
pub fn div_trunc(a: i64, b: i64) -> (r: i64)
    requires
        b > 0,
        a > i64::MIN,
    ensures
        r == trunc_div(a as int, b as int),
{
    if a >= 0 {
        a / b
    } else {
        -((-a) / b)
    }
}

/// An exact positive-denominator fraction, used for ray parameters.
#[derive(Clone, Copy, Debug, PartialEq, Eq, Structural)]
pub struct Ratio {
    pub num: i64,
    pub den: i64,
}

impl Ratio {
    /// Valid fractions keep a strictly positive denominator.
    pub open spec fn wf(self) -> bool {
        self.den > 0
    }

    /// `self < other` as rationals: `a/b < c/d  <=>  a*d < c*b` for
    /// positive denominators.
    pub open spec fn lt_spec(self, other: Ratio) -> bool {
        self.num * other.den < other.num * self.den
    }

    /// Compares two fractions exactly, widening so the cross products cannot
    /// overflow.
    pub fn lt(&self, other: &Ratio) -> (r: bool)
        requires
            self.wf(),
            other.wf(),
        ensures
            r == self.lt_spec(*other),
    {
        proof {
            lemma_i64_mul_fits_i128(self.num as int, other.den as int);
            lemma_i64_mul_fits_i128(other.num as int, self.den as int);
        }
        (self.num as i128) * (other.den as i128) < (other.num as i128) * (self.den as i128)
    }

    /// The fraction is non-negative.
    pub open spec fn is_nonneg(self) -> bool {
        self.num >= 0
    }
}

/// The product of two `i64` values always fits in an `i128`.
pub proof fn lemma_i64_mul_fits_i128(a: int, b: int)
    by (nonlinear_arith)
    requires
        i64::MIN <= a <= i64::MAX,
        i64::MIN <= b <= i64::MAX,
    ensures
        i128::MIN <= a * b <= i128::MAX,
{
}

/// A product is bounded by the product of the factors' bounds.
pub proof fn lemma_mul_le(a: int, b: int, ba: int, bb: int)
    by (nonlinear_arith)
    requires
        -ba <= a <= ba,
        -bb <= b <= bb,
        0 <= ba,
        0 <= bb,
    ensures
        -(ba * bb) <= a * b <= ba * bb,
{
}

/// A product of non-negative factors stays between zero and the product of
/// the factors' bounds.
pub proof fn lemma_mul_bounds_nonneg(a: int, b: int, ba: int, bb: int)
    by (nonlinear_arith)
    requires
        0 <= a <= ba,
        0 <= b <= bb,
    ensures
        0 <= a * b <= ba * bb,
{
}

/// Truncating division shrinks magnitudes and keeps signs.
pub proof fn lemma_trunc_div_bounds(a: int, b: int)
    requires
        b >= 1,
    ensures
        a >= 0 ==> 0 <= trunc_div(a, b) <= a,
        a < 0 ==> a <= trunc_div(a, b) <= 0,
{
    if a >= 0 {
        vstd::arithmetic::div_mod::lemma_div_pos_is_pos(a, b);
        vstd::arithmetic::div_mod::lemma_div_nonincreasing(a, b);
    } else {
        vstd::arithmetic::div_mod::lemma_div_pos_is_pos(-a, b);
        vstd::arithmetic::div_mod::lemma_div_nonincreasing(-a, b);
    }
}

/// A dividend bounded by `b * m` keeps its truncating quotient within `m`.
pub proof fn lemma_trunc_div_scaled(a: int, b: int, m: int)
    requires
        b >= 1,
        0 <= m,
        -(b * m) <= a <= b * m,
    ensures
        -m <= trunc_div(a, b) <= m,
{
    if a >= 0 {
        vstd::arithmetic::div_mod::lemma_div_pos_is_pos(a, b);
        vstd::arithmetic::div_mod::lemma_multiply_divide_le(a, b, m);
    } else {
        vstd::arithmetic::div_mod::lemma_div_pos_is_pos(-a, b);
        vstd::arithmetic::div_mod::lemma_multiply_divide_le(-a, b, m);
    }
}

/// Squares of truncating quotients, rescaled, never exceed the square of the
/// dividend: `(a / b)^2 * b^2 <= a^2`.
pub proof fn lemma_trunc_div_sq(a: int, b: int)
    requires
        b >= 1,
    ensures
        trunc_div(a, b) * trunc_div(a, b) * (b * b) <= a * a,
{
    if a >= 0 {
        let q = a / b;
        vstd::arithmetic::div_mod::lemma_div_pos_is_pos(a, b);
        vstd::arithmetic::div_mod::lemma_fundamental_div_mod(a, b);
        assert(q * q * (b * b) <= a * a) by (nonlinear_arith)
            requires
                0 <= q,
                b >= 1,
                b * q + a % b == a,
                0 <= a % b,
        ;
    } else {
        let q = (-a) / b;
        vstd::arithmetic::div_mod::lemma_div_pos_is_pos(-a, b);
        vstd::arithmetic::div_mod::lemma_fundamental_div_mod(-a, b);
        assert((-q) * (-q) * (b * b) <= a * a) by (nonlinear_arith)
            requires
                0 <= q,
                b >= 1,
                b * q + (-a) % b == -a,
                0 <= (-a) % b,
        ;
    }
}

/// Squares are never negative.
pub proof fn lemma_sq_nonneg(q: int)
    by (nonlinear_arith)
    ensures
        q * q >= 0,
{
}

/// A value whose square is bounded by `m^2` lies within `[-m, m]`.
pub proof fn lemma_sq_bound(q: int, m: int)
    by (nonlinear_arith)
    requires
        0 <= m,
        q * q <= m * m,
    ensures
        -m <= q <= m,
{
}

/// A finite line segment between two points.
#[derive(Clone, Copy, Debug, PartialEq, Eq, Structural)]
pub struct LineSegment {
    pub start: Vec2,
    pub end: Vec2,
}

/// Denominator of the ray/segment system: `dot(end - start, perp(dir))`,
/// which equals `cross(dir, end - start)`. Zero exactly when the ray is
/// parallel to the segment or the segment is degenerate.
pub open spec fn seg_denom(s: LineSegment, d: Vec2) -> int {
    (s.end.x - s.start.x) * (-d.y) + (s.end.y - s.start.y) * d.x
}

/// Numerator of the ray parameter `t`, before sign normalization:
/// `cross(end - start, origin - start)`.
pub open spec fn seg_t_raw(s: LineSegment, o: Vec2) -> int {
    (s.end.x - s.start.x) * (o.y - s.start.y) - (s.end.y - s.start.y) * (o.x - s.start.x)
}

/// Numerator of the segment parameter `u`, before sign normalization:
/// `dot(origin - start, perp(dir))`.
pub open spec fn seg_u_raw(s: LineSegment, o: Vec2, d: Vec2) -> int {
    (o.x - s.start.x) * (-d.y) + (o.y - s.start.y) * d.x
}

/// Positive denominator shared by `t` and `u`.
pub open spec fn seg_den(s: LineSegment, d: Vec2) -> int {
    if seg_denom(s, d) < 0 {
        -seg_denom(s, d)
    } else {
        seg_denom(s, d)
    }
}

/// Sign-normalized numerator of `t`.
pub open spec fn seg_t_num(s: LineSegment, o: Vec2, d: Vec2) -> int {
    if seg_denom(s, d) < 0 {
        -seg_t_raw(s, o)
    } else {
        seg_t_raw(s, o)
    }
}

/// Sign-normalized numerator of `u`.
pub open spec fn seg_u_num(s: LineSegment, o: Vec2, d: Vec2) -> int {
    if seg_denom(s, d) < 0 {
        -seg_u_raw(s, o, d)
    } else {
        seg_u_raw(s, o, d)
    }
}

/// The ray from `o` along `d` strikes the segment: the system is not
/// degenerate, the intersection is not behind the origin (`t >= 0`), and it
/// falls within the segment (`0 <= u <= 1`).
pub open spec fn seg_hit(s: LineSegment, o: Vec2, d: Vec2) -> bool {
    &&& seg_denom(s, d) != 0
    &&& seg_t_num(s, o, d) >= 0
    &&& 0 <= seg_u_num(s, o, d) <= seg_den(s, d)
}

impl LineSegment {
    pub fn new(start: Vec2, end: Vec2) -> (r: LineSegment)
        ensures
            r.start == start,
            r.end == end,
    {
        LineSegment { start, end }
    }

    /// Both endpoints lie within the geometry's coordinate bound.
    pub open spec fn in_bounds(self) -> bool {
        self.start.in_bounds() && self.end.in_bounds()
    }

    /// Intersects the ray from `ray_origin` along `ray_direction` with this
    /// segment.
    ///
    /// Returns the ray parameter of the intersection as an exact fraction
    /// `t = t.num / t.den` — a distance in multiples of `ray_direction`, not
    /// an arc length — together with the segment's perpendicular
    /// `(end - start)` rotated clockwise, reported unnormalized (its direction
    /// is meaningful, its length is the segment's). Returns `None` when the
    /// ray is parallel to the segment, the segment is degenerate, the
    /// intersection lies behind the origin, or it misses the segment.
    pub fn intersect_ray(&self, ray_origin: Vec2, ray_direction: Vec2) -> (r: Option<
        (Ratio, Vec2),
    >)
        requires
            self.in_bounds(),
            ray_origin.in_bounds(),
            ray_direction.in_bounds(),
        ensures
            r.is_some() == seg_hit(*self, ray_origin, ray_direction),
            r matches Some((t, n)) ==> {
                &&& t.num == seg_t_num(*self, ray_origin, ray_direction)
                &&& t.den == seg_den(*self, ray_direction)
                &&& t.wf()
                &&& t.is_nonneg()
                &&& n.x == self.end.y - self.start.y
                &&& n.y == -(self.end.x - self.start.x)
            },
    {
        let v1x: i64 = ray_origin.x - self.start.x;
        let v1y: i64 = ray_origin.y - self.start.y;
        let v2x: i64 = self.end.x - self.start.x;
        let v2y: i64 = self.end.y - self.start.y;
        let v3x: i64 = -ray_direction.y;
        let v3y: i64 = ray_direction.x;

        proof {
            lemma_mul_le(v2x as int, v3x as int, 2_000_000_000, 1_000_000_000);
            lemma_mul_le(v2y as int, v3y as int, 2_000_000_000, 1_000_000_000);
            lemma_mul_le(v2x as int, v1y as int, 2_000_000_000, 2_000_000_000);
            lemma_mul_le(v2y as int, v1x as int, 2_000_000_000, 2_000_000_000);
            lemma_mul_le(v1x as int, v3x as int, 2_000_000_000, 1_000_000_000);
            lemma_mul_le(v1y as int, v3y as int, 2_000_000_000, 1_000_000_000);
        }
        let denom: i64 = v2x * v3x + v2y * v3y;
        if denom == 0 {
            return None;  // the ray and the segment are parallel, or the segment is degenerate
        }
        let t_raw: i64 = v2x * v1y - v2y * v1x;
        let u_raw: i64 = v1x * v3x + v1y * v3y;

        let den: i64 = if denom < 0 { -denom } else { denom };
        let t_num: i64 = if denom < 0 { -t_raw } else { t_raw };
        let u_num: i64 = if denom < 0 { -u_raw } else { u_raw };

        if t_num >= 0 && 0 <= u_num && u_num <= den {
            Some((Ratio { num: t_num, den }, Vec2 { x: v2y, y: -v2x }))
        } else {
            None
        }
    }
}

/// Cramer-rule identities behind the intersection routine: with
/// `v1 = origin - start` and `w = end - start`, the raw parameters
/// `t_raw = cross(w, v1)`, `u_raw = dot(v1, perp(d))` and the signed
/// denominator `dd = dot(w, perp(d))` satisfy `u_raw * w - t_raw * d == v1 * dd`
/// componentwise.
proof fn lemma_cramer_identity(v1x: int, v1y: int, wx: int, wy: int, dx: int, dy: int)
    ensures
        (v1x * (-dy) + v1y * dx) * wx - (wx * v1y - wy * v1x) * dx == v1x * (wx * (-dy) + wy * dx),
        (v1x * (-dy) + v1y * dx) * wy - (wx * v1y - wy * v1x) * dy == v1y * (wx * (-dy) + wy * dx),
{
    let u = v1x * (-dy) + v1y * dx;
    let t = wx * v1y - wy * v1x;
    let dd = wx * (-dy) + wy * dx;
    assert(u * wx - t * dx == v1x * dd) by (nonlinear_arith)
        requires
            u == v1x * (-dy) + v1y * dx,
            t == wx * v1y - wy * v1x,
            dd == wx * (-dy) + wy * dx,
    ;
    assert(u * wy - t * dy == v1y * dd) by (nonlinear_arith)
        requires
            u == v1x * (-dy) + v1y * dx,
            t == wx * v1y - wy * v1x,
            dd == wx * (-dy) + wy * dx,
    ;
}

/// A ray parallel to the segment's own vector never produces a hit (the
/// direction's cross product with `end - start` vanishes, so the denominator
/// does too). A degenerate segment is parallel to everything and so is also
/// never hit.
pub proof fn lemma_parallel_ray_misses(s: LineSegment, o: Vec2, d: Vec2)
    by (nonlinear_arith)
    requires
        d.x * (s.end.y - s.start.y) == d.y * (s.end.x - s.start.x),
    ensures
        !seg_hit(s, o, d),
{
}

/// Every accepted intersection lies on the segment: there is a segment
/// parameter `u` in `[0, 1]` (as the fraction `seg_u_num / seg_den`) with
/// `origin + t * dir == start + u * (end - start)`, stated here with the
/// common positive denominator multiplied through.
pub proof fn lemma_hit_point_on_segment(s: LineSegment, o: Vec2, d: Vec2)
    requires
        seg_hit(s, o, d),
    ensures
        seg_t_num(s, o, d) >= 0,
        seg_den(s, d) > 0,
        0 <= seg_u_num(s, o, d) <= seg_den(s, d),
        o.x * seg_den(s, d) + seg_t_num(s, o, d) * d.x == s.start.x * seg_den(s, d) + seg_u_num(
            s,
            o,
            d,
        ) * (s.end.x - s.start.x),
        o.y * seg_den(s, d) + seg_t_num(s, o, d) * d.y == s.start.y * seg_den(s, d) + seg_u_num(
            s,
            o,
            d,
        ) * (s.end.y - s.start.y),
{
    let dd = seg_denom(s, d);
    let tr = seg_t_raw(s, o);
    let ur = seg_u_raw(s, o, d);
    lemma_cramer_identity(
        o.x - s.start.x,
        o.y - s.start.y,
        s.end.x - s.start.x,
        s.end.y - s.start.y,
        d.x as int,
        d.y as int,
    );
    assert(ur * (s.end.x - s.start.x) - tr * d.x == (o.x - s.start.x) * dd);
    assert(ur * (s.end.y - s.start.y) - tr * d.y == (o.y - s.start.y) * dd);
    if dd < 0 {
        assert(o.x * (-dd) + (-tr) * d.x == s.start.x * (-dd) + (-ur) * (s.end.x - s.start.x))
            by (nonlinear_arith)
            requires
                ur * (s.end.x - s.start.x) - tr * d.x == (o.x - s.start.x) * dd,
        ;
        assert(o.y * (-dd) + (-tr) * d.y == s.start.y * (-dd) + (-ur) * (s.end.y - s.start.y))
            by (nonlinear_arith)
            requires
                ur * (s.end.y - s.start.y) - tr * d.y == (o.y - s.start.y) * dd,
        ;
    } else {
        assert(o.x * dd + tr * d.x == s.start.x * dd + ur * (s.end.x - s.start.x))
            by (nonlinear_arith)
            requires
                ur * (s.end.x - s.start.x) - tr * d.x == (o.x - s.start.x) * dd,
        ;
        assert(o.y * dd + tr * d.y == s.start.y * dd + ur * (s.end.y - s.start.y))
            by (nonlinear_arith)
            requires
                ur * (s.end.y - s.start.y) - tr * d.y == (o.y - s.start.y) * dd,
        ;
    }
}

} // verus!
