//! Points, sizes, clamped movement and the segment intersection test.

use vstd::prelude::*;

verus! {

/// A cell of the playfield, in pixels from the top-left corner.
#[derive(Clone, Copy, Debug, PartialEq, Eq, Structural)]
pub struct Point {
    pub x: i32,
    pub y: i32,
}

impl Point {
    /// The point `(x, y)`.
    pub fn new(x: i32, y: i32) -> (p: Point)
        ensures
            p == (Point { x, y }),
    {
        Point { x, y }
    }
}

/// A width and a height, in pixels.
#[derive(Clone, Copy, Debug, PartialEq, Eq, Structural)]
pub struct Size {
    pub width: u32,
    pub height: u32,
}

impl Size {
    /// The size `width` by `height`.
    pub fn new(width: u32, height: u32) -> (s: Size)
        ensures
            s == (Size { width, height }),
    {
        Size { width, height }
    }
}

/// The coordinate `current + delta`, held inside `[0, bound - 1]`.
pub open spec fn clamped_advance(current: int, delta: int, bound: int) -> int {
    if current + delta < 0 {
        0
    } else if current + delta >= bound {
        bound - 1
    } else {
        current + delta
    }
}

/// Moves the coordinate `c` by `v` on an axis of `max` cells and keeps it on
/// the axis. The sum is taken in 64 bits, so every `c` and `v` is served.
pub fn add_max(c: i32, v: i32, max: i32) -> (r: i32)
    requires
        max > 0,
    ensures
        r == clamped_advance(c as int, v as int, max as int),
        0 <= r <= max - 1,
{
    let x: i64 = c as i64 + v as i64;
    if x < 0 {
        0
    } else if x >= max as i64 {
        max - 1
    } else {
        x as i32
    }
}

/// The common denominator of the two intersection parameters: zero exactly
/// when the segments `(x1, y1)-(x2, y2)` and `(x3, y3)-(x4, y4)` are parallel.
pub open spec fn cross_den(
    x1: int, y1: int, x2: int, y2: int,
    x3: int, y3: int, x4: int, y4: int,
) -> int {
    (y4 - y3) * (x2 - x1) - (x4 - x3) * (y2 - y1)
}

/// Numerator of the parameter along the first segment.
pub open spec fn cross_num_a(
    x1: int, y1: int, x2: int, y2: int,
    x3: int, y3: int, x4: int, y4: int,
) -> int {
    (x4 - x3) * (y1 - y3) - (y4 - y3) * (x1 - x3)
}

/// Numerator of the parameter along the second segment.
pub open spec fn cross_num_b(
    x1: int, y1: int, x2: int, y2: int,
    x3: int, y3: int, x4: int, y4: int,
) -> int {
    (x2 - x1) * (y1 - y3) - (y2 - y1) * (x1 - x3)
}

/// `n / d` is a number of `[0, 1]`; false when `d` is zero.
pub open spec fn unit_ratio(n: int, d: int) -> bool {
    (d > 0 && 0 <= n <= d) || (d < 0 && d <= n <= 0)
}

/// The segments `(x1, y1)-(x2, y2)` and `(x3, y3)-(x4, y4)` are not parallel
/// and meet: both intersection parameters lie in `[0, 1]`.
pub open spec fn segments_intersect(
    x1: int, y1: int, x2: int, y2: int,
    x3: int, y3: int, x4: int, y4: int,
) -> bool {
    let d = cross_den(x1, y1, x2, y2, x3, y3, x4, y4);
    unit_ratio(cross_num_a(x1, y1, x2, y2, x3, y3, x4, y4), d)
        && unit_ratio(cross_num_b(x1, y1, x2, y2, x3, y3, x4, y4), d)
}

/// Largest magnitude of a coordinate that `segments_cross` takes.
pub(crate) const COORD_LIMIT: i64 = 0x2_0000_0000;

/// The product of two coordinate differences stays below `2^70`.
proof fn lemma_product_bound(a: int, b: int)
    by (nonlinear_arith)
    requires
        -0x4_0000_0000 <= a <= 0x4_0000_0000,
        -0x4_0000_0000 <= b <= 0x4_0000_0000,
    ensures
        -0x10_0000_0000_0000_0000 <= a * b <= 0x10_0000_0000_0000_0000,
{
}

/// The intersection test on coordinates of up to 34 bits, in exact integer
/// arithmetic.
pub(crate) fn segments_cross(
    x1: i64, y1: i64, x2: i64, y2: i64,
    x3: i64, y3: i64, x4: i64, y4: i64,
) -> (hit: bool)
    requires
        -COORD_LIMIT <= x1 <= COORD_LIMIT,
        -COORD_LIMIT <= y1 <= COORD_LIMIT,
        -COORD_LIMIT <= x2 <= COORD_LIMIT,
        -COORD_LIMIT <= y2 <= COORD_LIMIT,
        -COORD_LIMIT <= x3 <= COORD_LIMIT,
        -COORD_LIMIT <= y3 <= COORD_LIMIT,
        -COORD_LIMIT <= x4 <= COORD_LIMIT,
        -COORD_LIMIT <= y4 <= COORD_LIMIT,
    ensures
        hit == segments_intersect(
            x1 as int, y1 as int, x2 as int, y2 as int,
            x3 as int, y3 as int, x4 as int, y4 as int,
        ),
{
    let dx12: i128 = (x2 - x1) as i128;
    let dy12: i128 = (y2 - y1) as i128;
    let dx34: i128 = (x4 - x3) as i128;
    let dy34: i128 = (y4 - y3) as i128;
    let dx31: i128 = (x1 - x3) as i128;
    let dy31: i128 = (y1 - y3) as i128;
    proof {
        lemma_product_bound(dy34 as int, dx12 as int);
        lemma_product_bound(dx34 as int, dy12 as int);
        lemma_product_bound(dx34 as int, dy31 as int);
        lemma_product_bound(dy34 as int, dx31 as int);
        lemma_product_bound(dx12 as int, dy31 as int);
        lemma_product_bound(dy12 as int, dx31 as int);
    }
    let rc: i128 = dy34 * dx12 - dx34 * dy12;
    let na: i128 = dx34 * dy31 - dy34 * dx31;
    let nb: i128 = dx12 * dy31 - dy12 * dx31;
    if rc > 0 {
        0 <= na && na <= rc && 0 <= nb && nb <= rc
    } else if rc < 0 {
        rc <= na && na <= 0 && rc <= nb && nb <= 0
    } else {
        false
    }
}

/// Whether the segment `(x1, y1)-(x2, y2)` meets the segment
/// `(x3, y3)-(x4, y4)`. Parallel segments never do.
pub fn line_collision(
    x1: i32, y1: i32, x2: i32, y2: i32,
    x3: i32, y3: i32, x4: i32, y4: i32,
) -> (hit: bool)
    ensures
        hit == segments_intersect(
            x1 as int, y1 as int, x2 as int, y2 as int,
            x3 as int, y3 as int, x4 as int, y4 as int,
        ),
{
    segments_cross(
        x1 as i64, y1 as i64, x2 as i64, y2 as i64,
        x3 as i64, y3 as i64, x4 as i64, y4 as i64,
    )
}

/// Swapping the two endpoints of either segment does not change whether the
/// segments intersect.
pub proof fn lemma_intersect_endpoint_order(
    x1: int, y1: int, x2: int, y2: int,
    x3: int, y3: int, x4: int, y4: int,
)
    ensures
        segments_intersect(x2, y2, x1, y1, x3, y3, x4, y4)
            == segments_intersect(x1, y1, x2, y2, x3, y3, x4, y4),
        segments_intersect(x1, y1, x2, y2, x4, y4, x3, y3)
            == segments_intersect(x1, y1, x2, y2, x3, y3, x4, y4),
{
    let d = cross_den(x1, y1, x2, y2, x3, y3, x4, y4);
    let a = cross_num_a(x1, y1, x2, y2, x3, y3, x4, y4);
    let b = cross_num_b(x1, y1, x2, y2, x3, y3, x4, y4);
    // First segment reversed: the parameter along it becomes its complement.
    assert(cross_den(x2, y2, x1, y1, x3, y3, x4, y4) == -d) by (nonlinear_arith)
        requires
            d == (y4 - y3) * (x2 - x1) - (x4 - x3) * (y2 - y1),
            cross_den(x2, y2, x1, y1, x3, y3, x4, y4)
                == (y4 - y3) * (x1 - x2) - (x4 - x3) * (y1 - y2);
    assert(cross_num_a(x2, y2, x1, y1, x3, y3, x4, y4) == a - d) by (nonlinear_arith)
        requires
            d == (y4 - y3) * (x2 - x1) - (x4 - x3) * (y2 - y1),
            a == (x4 - x3) * (y1 - y3) - (y4 - y3) * (x1 - x3),
            cross_num_a(x2, y2, x1, y1, x3, y3, x4, y4)
                == (x4 - x3) * (y2 - y3) - (y4 - y3) * (x2 - x3);
    assert(cross_num_b(x2, y2, x1, y1, x3, y3, x4, y4) == -b) by (nonlinear_arith)
        requires
            b == (x2 - x1) * (y1 - y3) - (y2 - y1) * (x1 - x3),
            cross_num_b(x2, y2, x1, y1, x3, y3, x4, y4)
                == (x1 - x2) * (y2 - y3) - (y1 - y2) * (x2 - x3);
    // Second segment reversed.
    assert(cross_den(x1, y1, x2, y2, x4, y4, x3, y3) == -d) by (nonlinear_arith)
        requires
            d == (y4 - y3) * (x2 - x1) - (x4 - x3) * (y2 - y1),
            cross_den(x1, y1, x2, y2, x4, y4, x3, y3)
                == (y3 - y4) * (x2 - x1) - (x3 - x4) * (y2 - y1);
    assert(cross_num_a(x1, y1, x2, y2, x4, y4, x3, y3) == -a) by (nonlinear_arith)
        requires
            a == (x4 - x3) * (y1 - y3) - (y4 - y3) * (x1 - x3),
            cross_num_a(x1, y1, x2, y2, x4, y4, x3, y3)
                == (x3 - x4) * (y1 - y4) - (y3 - y4) * (x1 - x4);
    assert(cross_num_b(x1, y1, x2, y2, x4, y4, x3, y3) == b - d) by (nonlinear_arith)
        requires
            d == (y4 - y3) * (x2 - x1) - (x4 - x3) * (y2 - y1),
            b == (x2 - x1) * (y1 - y3) - (y2 - y1) * (x1 - x3),
            cross_num_b(x1, y1, x2, y2, x4, y4, x3, y3)
                == (x2 - x1) * (y1 - y4) - (y2 - y1) * (x1 - x4);
}

/// `(d, a, b)` names a point that lies on both segments: the point at `a / d`
/// of the way from `(x1, y1)` to `(x2, y2)` is the point at `b / d` of the
/// way from `(x3, y3)` to `(x4, y4)`.
pub open spec fn common_point(
    x1: int, y1: int, x2: int, y2: int,
    x3: int, y3: int, x4: int, y4: int,
    d: int, a: int, b: int,
) -> bool {
    &&& d > 0
    &&& 0 <= a <= d
    &&& 0 <= b <= d
    &&& d * x1 + a * (x2 - x1) == d * x3 + b * (x4 - x3)
    &&& d * y1 + a * (y2 - y1) == d * y3 + b * (y4 - y3)
}

/// The two segments share a point with rational parameters.
pub open spec fn segments_touch(
    x1: int, y1: int, x2: int, y2: int,
    x3: int, y3: int, x4: int, y4: int,
) -> bool {
    exists|d: int, a: int, b: int|
        common_point(x1, y1, x2, y2, x3, y3, x4, y4, d, a, b)
}

/// Segments that intersect share a point; so two segments without a common
/// point never intersect.
pub proof fn lemma_intersect_shares_point(
    x1: int, y1: int, x2: int, y2: int,
    x3: int, y3: int, x4: int, y4: int,
)
    requires
        segments_intersect(x1, y1, x2, y2, x3, y3, x4, y4),
    ensures
        segments_touch(x1, y1, x2, y2, x3, y3, x4, y4),
{
    let d = cross_den(x1, y1, x2, y2, x3, y3, x4, y4);
    let a = cross_num_a(x1, y1, x2, y2, x3, y3, x4, y4);
    let b = cross_num_b(x1, y1, x2, y2, x3, y3, x4, y4);
    lemma_meeting_point(x2 - x1, y2 - y1, x4 - x3, y4 - y3, x1 - x3, y1 - y3);
    assert(d * x1 + a * (x2 - x1) == d * x3 + b * (x4 - x3)) by (nonlinear_arith)
        requires
            d * (x1 - x3) + a * (x2 - x1) - b * (x4 - x3) == 0;
    assert(d * y1 + a * (y2 - y1) == d * y3 + b * (y4 - y3)) by (nonlinear_arith)
        requires
            d * (y1 - y3) + a * (y2 - y1) - b * (y4 - y3) == 0;
    if d > 0 {
        assert(common_point(x1, y1, x2, y2, x3, y3, x4, y4, d, a, b));
    } else {
        assert((-d) * x1 + (-a) * (x2 - x1) == (-d) * x3 + (-b) * (x4 - x3))
            by (nonlinear_arith)
            requires
                d * x1 + a * (x2 - x1) == d * x3 + b * (x4 - x3);
        assert((-d) * y1 + (-a) * (y2 - y1) == (-d) * y3 + (-b) * (y4 - y3))
            by (nonlinear_arith)
            requires
                d * y1 + a * (y2 - y1) == d * y3 + b * (y4 - y3);
        assert(common_point(x1, y1, x2, y2, x3, y3, x4, y4, -d, -a, -b));
    }
}

/// Segments that are not parallel and share a point intersect.
pub proof fn lemma_shared_point_intersects(
    x1: int, y1: int, x2: int, y2: int,
    x3: int, y3: int, x4: int, y4: int,
)
    requires
        cross_den(x1, y1, x2, y2, x3, y3, x4, y4) != 0,
        segments_touch(x1, y1, x2, y2, x3, y3, x4, y4),
    ensures
        segments_intersect(x1, y1, x2, y2, x3, y3, x4, y4),
{
    let rc = cross_den(x1, y1, x2, y2, x3, y3, x4, y4);
    let na = cross_num_a(x1, y1, x2, y2, x3, y3, x4, y4);
    let nb = cross_num_b(x1, y1, x2, y2, x3, y3, x4, y4);
    let (d, a, b) = choose|d: int, a: int, b: int|
        common_point(x1, y1, x2, y2, x3, y3, x4, y4, d, a, b);
    assert(common_point(x1, y1, x2, y2, x3, y3, x4, y4, d, a, b));
    assert(d * (x1 - x3) + a * (x2 - x1) - b * (x4 - x3) == 0) by (nonlinear_arith)
        requires
            d * x1 + a * (x2 - x1) == d * x3 + b * (x4 - x3);
    assert(d * (y1 - y3) + a * (y2 - y1) - b * (y4 - y3) == 0) by (nonlinear_arith)
        requires
            d * y1 + a * (y2 - y1) == d * y3 + b * (y4 - y3);
    lemma_cramer(x2 - x1, y2 - y1, x4 - x3, y4 - y3, x1 - x3, y1 - y3, d, a, b);
    lemma_scaled_ratio(na, rc, a, d);
    lemma_scaled_ratio(nb, rc, b, d);
}

/// With `p, q` the direction of the first segment, `r, s` that of the second
/// and `u, v` the offset between their starting points, the point that the
/// two intersection parameters name on the first segment is the point that
/// they name on the second.
proof fn lemma_meeting_point(p: int, q: int, r: int, s: int, u: int, v: int)
    ensures
        (s * p - r * q) * u + (r * v - s * u) * p - (p * v - q * u) * r == 0,
        (s * p - r * q) * v + (r * v - s * u) * q - (p * v - q * u) * s == 0,
{
    assert((s * p - r * q) * u == s * p * u - r * q * u) by (nonlinear_arith);
    assert((r * v - s * u) * p == r * v * p - s * u * p) by (nonlinear_arith);
    assert((p * v - q * u) * r == p * v * r - q * u * r) by (nonlinear_arith);
    assert(s * u * p == s * p * u) by (nonlinear_arith);
    assert(q * u * r == r * q * u) by (nonlinear_arith);
    assert(p * v * r == r * v * p) by (nonlinear_arith);

    assert((s * p - r * q) * v == s * p * v - r * q * v) by (nonlinear_arith);
    assert((r * v - s * u) * q == r * v * q - s * u * q) by (nonlinear_arith);
    assert((p * v - q * u) * s == p * v * s - q * u * s) by (nonlinear_arith);
    assert(p * v * s == s * p * v) by (nonlinear_arith);
    assert(r * v * q == r * q * v) by (nonlinear_arith);
    assert(q * u * s == s * u * q) by (nonlinear_arith);
}

/// Cramer's rule: the parameters `a / d` and `b / d` of a common point are
/// the fractions that the intersection test computes.
proof fn lemma_cramer(
    p: int, q: int, r: int, s: int, u: int, v: int,
    d: int, a: int, b: int,
)
    requires
        d * u + a * p - b * r == 0,
        d * v + a * q - b * s == 0,
    ensures
        a * (s * p - r * q) == d * (r * v - s * u),
        b * (s * p - r * q) == d * (p * v - q * u),
{
    // The first equation times `s` and times `q`, the second times `r` and `p`.
    assert(s * (d * u) + s * (a * p) - s * (b * r) == 0) by (nonlinear_arith)
        requires
            d * u + a * p - b * r == 0;
    assert(q * (d * u) + q * (a * p) - q * (b * r) == 0) by (nonlinear_arith)
        requires
            d * u + a * p - b * r == 0;
    assert(r * (d * v) + r * (a * q) - r * (b * s) == 0) by (nonlinear_arith)
        requires
            d * v + a * q - b * s == 0;
    assert(p * (d * v) + p * (a * q) - p * (b * s) == 0) by (nonlinear_arith)
        requires
            d * v + a * q - b * s == 0;

    assert(a * (s * p - r * q) == s * (a * p) - r * (a * q)) by (nonlinear_arith);
    assert(d * (r * v - s * u) == r * (d * v) - s * (d * u)) by (nonlinear_arith);
    assert(s * (b * r) == r * (b * s)) by (nonlinear_arith);

    assert(b * (s * p - r * q) == p * (b * s) - q * (b * r)) by (nonlinear_arith);
    assert(d * (p * v - q * u) == p * (d * v) - q * (d * u)) by (nonlinear_arith);
    assert(q * (a * p) == p * (a * q)) by (nonlinear_arith);
}

/// If `a / d` lies in `[0, 1]` and `n / rc` is the same fraction, then
/// `n / rc` lies in `[0, 1]`.
proof fn lemma_scaled_ratio(n: int, rc: int, a: int, d: int)
    by (nonlinear_arith)
    requires
        rc != 0,
        d > 0,
        0 <= a <= d,
        a * rc == d * n,
    ensures
        unit_ratio(n, rc),
{
}

} // verus!
