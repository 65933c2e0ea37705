//! Fixed-point plane geometry: points, axis-aligned boxes, overlap tests and
//! integer square roots.
//!
//! Every length is an integer count of sub-pixel units, `UNITS_PER_PIXEL` of
//! them to a pixel, so that the simulation is exact and reproducible.
use vstd::prelude::*;

verus! {

/// Sub-pixel units in one pixel.
pub const UNITS_PER_PIXEL: i64 = 1000;

/// Largest absolute coordinate of a position in the world.
pub const WORLD_LIMIT: i64 = 1_000_000_000;

/// Largest width or height of a box.
pub const SIZE_LIMIT: i64 = 1_000_000_000;

/// A point or displacement in the plane.
#[derive(Clone, Copy, PartialEq, Eq, Structural, Debug)]
pub struct Vector2 {
    pub x: i64,
    pub y: i64,
}

/// An axis-aligned box: the half-open region `[pos, pos + size)`.
#[derive(Clone, Copy, PartialEq, Eq, Structural, Debug)]
pub struct Aabb {
    pub pos: Vector2,
    pub size: Vector2,
}

pub open spec fn in_world(p: Vector2) -> bool {
    -WORLD_LIMIT <= p.x <= WORLD_LIMIT && -WORLD_LIMIT <= p.y <= WORLD_LIMIT
}

/// Two boxes overlap iff their open intervals overlap on both axes; boxes
/// that only share an edge do not overlap.
pub open spec fn overlaps_spec(a: Aabb, b: Aabb) -> bool {
    &&& a.pos.x < b.pos.x + b.size.x
    &&& b.pos.x < a.pos.x + a.size.x
    &&& a.pos.y < b.pos.y + b.size.y
    &&& b.pos.y < a.pos.y + a.size.y
}

/// Square of the Euclidean distance between two points.
pub open spec fn dist2_spec(p: Vector2, q: Vector2) -> int {
    (p.x - q.x) * (p.x - q.x) + (p.y - q.y) * (p.y - q.y)
}

/// The largest natural number whose square is at most `n`.
pub open spec fn sqrt_floor(n: nat) -> nat
    decreases n,
{
    if n == 0 {
        0
    } else {
        let r = sqrt_floor((n - 1) as nat);
        if (r + 1) * (r + 1) <= n {
            r + 1
        } else {
            r
        }
    }
}

/// `sqrt_floor(n)` is the integer square root of `n`.
pub proof fn lemma_sqrt_floor_bounds(n: nat)
    ensures
        sqrt_floor(n) * sqrt_floor(n) <= n,
        n < (sqrt_floor(n) + 1) * (sqrt_floor(n) + 1),
    decreases n,
{
    if n == 0 {
        let s = sqrt_floor(n);
        assert(s == 0);
        assert(n < (s + 1) * (s + 1)) by (nonlinear_arith)
            requires
                s == 0,
                n == 0,
        ;
    } else {
        let m = (n - 1) as nat;
        lemma_sqrt_floor_bounds(m);
        let r = sqrt_floor(m);
        let s = sqrt_floor(n);
        if (r + 1) * (r + 1) <= n {
            assert(s == r + 1);
            assert(n < (r + 2) * (r + 2)) by (nonlinear_arith)
                requires
                    m < (r + 1) * (r + 1),
                    n == m + 1,
            ;
            assert(s * s <= n);
            assert(n < (s + 1) * (s + 1));
        } else {
            assert(s == r);
            assert(r * r <= n);
            assert(n < (s + 1) * (s + 1));
        }
    }
}

/// A natural number with `r * r <= n < (r + 1) * (r + 1)` is `sqrt_floor(n)`.
pub proof fn lemma_sqrt_floor_unique(n: nat, r: nat)
    requires
        r * r <= n,
        n < (r + 1) * (r + 1),
    ensures
        r == sqrt_floor(n),
{
    lemma_sqrt_floor_bounds(n);
    let s = sqrt_floor(n);
    if r < s {
        assert((r + 1) * (r + 1) <= s * s) by (nonlinear_arith)
            requires
                r + 1 <= s,
        ;
    } else if s < r {
        assert((s + 1) * (s + 1) <= r * r) by (nonlinear_arith)
            requires
                s + 1 <= r,
        ;
    }
}

impl Vector2 {
    pub fn new(x: i64, y: i64) -> (r: Vector2)
        ensures
            r.x == x,
            r.y == y,
    {
        Vector2 { x, y }
    }
}

impl Aabb {
    pub open spec fn wf(self) -> bool {
        &&& in_world(self.pos)
        &&& 0 <= self.size.x <= SIZE_LIMIT
        &&& 0 <= self.size.y <= SIZE_LIMIT
    }

    pub fn new(pos: Vector2, size: Vector2) -> (r: Aabb)
        ensures
            r.pos == pos,
            r.size == size,
    {
        Aabb { pos, size }
    }

    pub open spec fn center_spec(self) -> Vector2 {
        Vector2 {
            x: (self.pos.x + self.size.x / 2) as i64,
            y: (self.pos.y + self.size.y / 2) as i64,
        }
    }

    /// The centre of the box, rounded towards its top-left corner.
    pub fn center(&self) -> (r: Vector2)
        requires
            self.wf(),
        ensures
            r == self.center_spec(),
    {
        Vector2 { x: self.pos.x + self.size.x / 2, y: self.pos.y + self.size.y / 2 }
    }
}

/// Whether two boxes overlap (strictly: touching edges do not count).
pub fn overlaps(a: &Aabb, b: &Aabb) -> (r: bool)
    ensures
        r == overlaps_spec(*a, *b),
{
    (a.pos.x as i128) < (b.pos.x as i128) + (b.size.x as i128)
        && (b.pos.x as i128) < (a.pos.x as i128) + (a.size.x as i128)
        && (a.pos.y as i128) < (b.pos.y as i128) + (b.size.y as i128)
        && (b.pos.y as i128) < (a.pos.y as i128) + (a.size.y as i128)
}

/// Overlap is symmetric.
pub proof fn lemma_overlaps_symmetric(a: Aabb, b: Aabb)
    ensures
        overlaps_spec(a, b) == overlaps_spec(b, a),
{
}

/// The integer square root: the largest `r` with `r * r <= n`.
pub fn isqrt(n: u64) -> (r: u64)
    ensures
        r == sqrt_floor(n as nat),
{
    // lo * lo <= n < hi * hi
    let mut lo: u64 = 0;
    let mut hi: u64 = 0x1_0000_0000;
    assert(0x1_0000_0000 * 0x1_0000_0000 > u64::MAX);
    while hi - lo > 1
        invariant
            lo < hi <= 0x1_0000_0000,
            (lo as int) * (lo as int) <= n,
            (n as int) < (hi as int) * (hi as int),
        decreases hi - lo,
    {
        let mid: u64 = lo + (hi - lo) / 2;
        assert((mid as int) * (mid as int) < 0x1_0000_0000 * 0x1_0000_0000) by (nonlinear_arith)
            requires
                0 <= mid < 0x1_0000_0000,
        ;
        let sq: u128 = (mid as u128) * (mid as u128);
        if sq <= n as u128 {
            lo = mid;
        } else {
            hi = mid;
        }
    }
    proof {
        lemma_sqrt_floor_unique(n as nat, lo as nat);
    }
    lo
}

/// The smallest natural number whose square is at least `n`.
pub open spec fn sqrt_ceil(n: nat) -> nat {
    if sqrt_floor(n) * sqrt_floor(n) == n {
        sqrt_floor(n)
    } else {
        sqrt_floor(n) + 1
    }
}

/// `sqrt_ceil(n)` squares to at least `n`, and one less squares to less.
pub proof fn lemma_sqrt_ceil_bounds(n: nat)
    ensures
        n <= sqrt_ceil(n) * sqrt_ceil(n),
        sqrt_ceil(n) == 0 || (sqrt_ceil(n) - 1) * (sqrt_ceil(n) - 1) < n,
{
    lemma_sqrt_floor_bounds(n);
    let s = sqrt_floor(n);
    if s * s == n && s > 0 {
        assert((s - 1) * (s - 1) < s * s) by (nonlinear_arith)
            requires
                s > 0,
        ;
    }
    if s * s != n {
        assert(sqrt_ceil(n) - 1 == s);
        assert(n <= (s + 1) * (s + 1)) by (nonlinear_arith)
            requires
                n < (s + 1) * (s + 1),
        ;
    }
}

/// The integer square root of a wide number: the largest `r` with
/// `r * r <= n`.
pub fn isqrt_wide(n: u128) -> (r: u128)
    ensures
        r == sqrt_floor(n as nat),
{
    // lo * lo <= n < hi * hi
    let mut lo: u128 = 0;
    let mut hi: u128 = 0x1_0000_0000_0000_0000;
    assert(0x1_0000_0000_0000_0000 * 0x1_0000_0000_0000_0000 > u128::MAX);
    while hi - lo > 1
        invariant
            lo < hi <= 0x1_0000_0000_0000_0000,
            (lo as int) * (lo as int) <= n,
            (n as int) < (hi as int) * (hi as int),
        decreases hi - lo,
    {
        let mid: u128 = lo + (hi - lo) / 2;
        assert((mid as int) * (mid as int) < 0x1_0000_0000_0000_0000 * 0x1_0000_0000_0000_0000)
            by (nonlinear_arith)
            requires
                0 <= mid < 0x1_0000_0000_0000_0000,
        ;
        if mid * mid <= n {
            lo = mid;
        } else {
            hi = mid;
        }
    }
    proof {
        lemma_sqrt_floor_unique(n as nat, lo as nat);
    }
    lo
}

/// Square of the distance between two points of the world.
pub fn dist2(p: &Vector2, q: &Vector2) -> (r: u64)
    requires
        in_world(*p),
        in_world(*q),
    ensures
        r == dist2_spec(*p, *q),
{
    let dx: i64 = p.x - q.x;
    let dy: i64 = p.y - q.y;
    assert(0 <= dx * dx <= 4_000_000_000_000_000_000) by (nonlinear_arith)
        requires
            -2_000_000_000 <= dx <= 2_000_000_000,
    ;
    assert(0 <= dy * dy <= 4_000_000_000_000_000_000) by (nonlinear_arith)
        requires
            -2_000_000_000 <= dy <= 2_000_000_000,
    ;
    let sx: i128 = (dx as i128) * (dx as i128);
    let sy: i128 = (dy as i128) * (dy as i128);
    (sx + sy) as u64
}

/// The Euclidean distance between two points, rounded down to a whole unit.
pub fn distance(p: &Vector2, q: &Vector2) -> (r: u64)
    requires
        in_world(*p),
        in_world(*q),
    ensures
        r == sqrt_floor(dist2_spec(*p, *q) as nat),
{
    let d = dist2(p, q);
    isqrt(d)
}


/// Largest absolute coordinate, and radius, that the circle tests take.
pub const SHAPE_LIMIT: i64 = 268_435_456;

#[derive(Clone, Copy, PartialEq, Eq, Structural, Debug)]
pub struct Circle {
    pub center: Vector2,
    pub radius: i64,
}

/// The segment from `a` to `b`.
#[derive(Clone, Copy, PartialEq, Eq, Structural, Debug)]
pub struct Line {
    pub a: Vector2,
    pub b: Vector2,
}

pub open spec fn in_shape_range(p: Vector2) -> bool {
    -SHAPE_LIMIT <= p.x <= SHAPE_LIMIT && -SHAPE_LIMIT <= p.y <= SHAPE_LIMIT
}

/// `sqrt(d) > k`, for `d >= 0`.
pub open spec fn root_above(d: int, k: int) -> bool {
    k < 0 || d > k * k
}

/// `sqrt(d) < k`, for `d >= 0`.
pub open spec fn root_below(d: int, k: int) -> bool {
    k > 0 && d < k * k
}

/// Whether the circle's boundary crosses the open segment: with the segment
/// written `a + t (b - a)` relative to the centre, `|a + t (b - a)|^2 = r^2`
/// is the quadratic `qa t^2 + qb t + qc = 0`; it must have two distinct roots,
/// one of them strictly between 0 and 1. A root `(-qb + sqrt(d)) / (2 qa)`
/// lies there iff `qb < sqrt(d) < 2 qa + qb`, and `(-qb - sqrt(d)) / (2 qa)`
/// iff `-qb - 2 qa < sqrt(d) < -qb`.
pub open spec fn line_crosses_circle_spec(circle: Circle, line: Line) -> bool {
    let ax = line.a.x - circle.center.x;
    let ay = line.a.y - circle.center.y;
    let bx = line.b.x - circle.center.x;
    let by = line.b.y - circle.center.y;
    let r = circle.radius;
    let qa = (bx - ax) * (bx - ax) + (by - ay) * (by - ay);
    let qb = 2 * (ax * (bx - ax) + ay * (by - ay));
    let qc = ax * ax + ay * ay - r * r;
    let d = qb * qb - 4 * qa * qc;
    &&& d > 0
    &&& (root_above(d, qb) && root_below(d, 2 * qa + qb)) || (root_below(d, -qb) && root_above(
        d,
        -qb - 2 * qa,
    ))
}

/// Whether the circle's boundary crosses one of the rectangle's four sides.
pub open spec fn rectangle_crosses_circle_spec(circle: Circle, r: Aabb) -> bool {
    let tl = r.pos;
    let tr = Vector2 { x: (r.pos.x + r.size.x) as i64, y: r.pos.y };
    let bl = Vector2 { x: r.pos.x, y: (r.pos.y + r.size.y) as i64 };
    let br = Vector2 { x: (r.pos.x + r.size.x) as i64, y: (r.pos.y + r.size.y) as i64 };
    ||| line_crosses_circle_spec(circle, Line { a: tl, b: tr })
    ||| line_crosses_circle_spec(circle, Line { a: bl, b: br })
    ||| line_crosses_circle_spec(circle, Line { a: tl, b: bl })
    ||| line_crosses_circle_spec(circle, Line { a: tr, b: br })
}

fn root_above_exec(d: i128, k: i128) -> (r: bool)
    requires
        -0x8000_0000_0000_0000 <= k <= 0x8000_0000_0000_0000,
    ensures
        r == root_above(d as int, k as int),
{
    if k < 0 {
        return true;
    }
    assert(k * k <= 0x8000_0000_0000_0000 * 0x8000_0000_0000_0000) by (nonlinear_arith)
        requires
            0 <= k <= 0x8000_0000_0000_0000,
    ;
    d > k * k
}

fn root_below_exec(d: i128, k: i128) -> (r: bool)
    requires
        -0x8000_0000_0000_0000 <= k <= 0x8000_0000_0000_0000,
    ensures
        r == root_below(d as int, k as int),
{
    if k <= 0 {
        return false;
    }
    assert(k * k <= 0x8000_0000_0000_0000 * 0x8000_0000_0000_0000) by (nonlinear_arith)
        requires
            0 <= k <= 0x8000_0000_0000_0000,
    ;
    d < k * k
}

/// Whether the circle's boundary crosses the open segment.
pub fn collision_line_circle(circle: Circle, line: Line) -> (r: bool)
    requires
        in_shape_range(circle.center),
        in_shape_range(line.a),
        in_shape_range(line.b),
        0 <= circle.radius <= SHAPE_LIMIT,
    ensures
        r == line_crosses_circle_spec(circle, line),
{
    let ax: i128 = line.a.x as i128 - circle.center.x as i128;
    let ay: i128 = line.a.y as i128 - circle.center.y as i128;
    let bx: i128 = line.b.x as i128 - circle.center.x as i128;
    let by: i128 = line.b.y as i128 - circle.center.y as i128;
    let r: i128 = circle.radius as i128;
    let dx: i128 = bx - ax;
    let dy: i128 = by - ay;
    proof {
        assert(0 <= dx * dx <= 0x1000_0000_0000_0000 && 0 <= dy * dy <= 0x1000_0000_0000_0000)
            by (nonlinear_arith)
            requires
                -0x4000_0000 <= dx <= 0x4000_0000,
                -0x4000_0000 <= dy <= 0x4000_0000,
        ;
        assert(-0x1000_0000_0000_0000 <= ax * dx <= 0x1000_0000_0000_0000 && -0x1000_0000_0000_0000
            <= ay * dy <= 0x1000_0000_0000_0000) by (nonlinear_arith)
            requires
                -0x4000_0000 <= dx <= 0x4000_0000,
                -0x4000_0000 <= dy <= 0x4000_0000,
                -0x4000_0000 <= ax <= 0x4000_0000,
                -0x4000_0000 <= ay <= 0x4000_0000,
        ;
        assert(0 <= ax * ax <= 0x1000_0000_0000_0000 && 0 <= ay * ay <= 0x1000_0000_0000_0000 && 0
            <= r * r <= 0x1000_0000_0000_0000) by (nonlinear_arith)
            requires
                -0x4000_0000 <= ax <= 0x4000_0000,
                -0x4000_0000 <= ay <= 0x4000_0000,
                0 <= r <= 0x4000_0000,
        ;
    }
    let qa: i128 = dx * dx + dy * dy;
    let qb: i128 = 2 * (ax * dx + ay * dy);
    let qc: i128 = ax * ax + ay * ay - r * r;
    proof {
        assert(0 <= qb * qb <= 0x1000_0000_0000_0000_0000_0000_0000_0000) by (nonlinear_arith)
            requires
                -0x4000_0000_0000_0000 <= qb <= 0x4000_0000_0000_0000,
        ;
        assert(-0x4000_0000_0000_0000_0000_0000_0000_0000 <= 4 * qa * qc
            <= 0x4000_0000_0000_0000_0000_0000_0000_0000) by (nonlinear_arith)
            requires
                0 <= qa <= 0x4000_0000_0000_0000,
                -0x4000_0000_0000_0000 <= qc <= 0x4000_0000_0000_0000,
        ;
    }
    let d: i128 = qb * qb - 4 * qa * qc;
    if d <= 0 {
        return false;
    }
    (root_above_exec(d, qb) && root_below_exec(d, 2 * qa + qb)) || (root_below_exec(d, -qb)
        && root_above_exec(d, -qb - 2 * qa))
}

/// Whether the circle's boundary crosses one of the rectangle's sides.
pub fn collision_rectangle_circle(circle: Circle, rectangle: Aabb) -> (r: bool)
    requires
        in_shape_range(circle.center),
        0 <= circle.radius <= SHAPE_LIMIT,
        in_shape_range(rectangle.pos),
        0 <= rectangle.size.x,
        0 <= rectangle.size.y,
        rectangle.pos.x + rectangle.size.x <= SHAPE_LIMIT,
        rectangle.pos.y + rectangle.size.y <= SHAPE_LIMIT,
    ensures
        r == rectangle_crosses_circle_spec(circle, rectangle),
{
    let tl = rectangle.pos;
    let tr = Vector2 { x: rectangle.pos.x + rectangle.size.x, y: rectangle.pos.y };
    let bl = Vector2 { x: rectangle.pos.x, y: rectangle.pos.y + rectangle.size.y };
    let br = Vector2 { x: rectangle.pos.x + rectangle.size.x, y: rectangle.pos.y + rectangle.size.y };
    collision_line_circle(circle, Line { a: tl, b: tr })
        || collision_line_circle(circle, Line { a: bl, b: br })
        || collision_line_circle(circle, Line { a: tl, b: bl })
        || collision_line_circle(circle, Line { a: tr, b: br })
}

} // verus!
