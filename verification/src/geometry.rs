//! Points and vectors on the fixed-point plane, and the rectangle queries
//! that place things on the edge of the visible area.

use vstd::prelude::*;

verus! {

/// A point or a vector of the plane, in thousandths of a world unit.
#[derive(Clone, Copy, Debug, PartialEq, Eq, Structural)]
pub struct Vec2 {
    pub x: i32,
    pub y: i32,
}

/// The side of a rectangle that a ray leaves through.
#[derive(Clone, Copy, Debug, PartialEq, Eq, Structural)]
pub enum Edge {
    Top,
    Bottom,
    Left,
    Right,
}

/// Quotient of `n` by `d`, rounded toward zero.
pub open spec fn div_trunc(n: int, d: int) -> int
    recommends
        d != 0,
{
    if n >= 0 {
        if d > 0 { n / d } else { -(n / (-d)) }
    } else {
        if d > 0 { -((-n) / d) } else { (-n) / (-d) }
    }
}

/// The nearest value to `v` that an `i32` holds.
pub open spec fn clamp_i32(v: int) -> int {
    if v < i32::MIN { i32::MIN as int } else if v > i32::MAX { i32::MAX as int } else { v }
}

/// Squared length of `v`.
pub open spec fn norm_sq(v: Vec2) -> int {
    v.x * v.x + v.y * v.y
}

/// Squared distance between `a` and `b`.
pub open spec fn dist_sq(a: Vec2, b: Vec2) -> int {
    (a.x - b.x) * (a.x - b.x) + (a.y - b.y) * (a.y - b.y)
}

/// Componentwise sum, each component kept within `i32`.
pub open spec fn add_sat(a: Vec2, b: Vec2) -> Vec2 {
    Vec2 { x: clamp_i32(a.x + b.x) as i32, y: clamp_i32(a.y + b.y) as i32 }
}

/// Componentwise difference `a - b`, each component kept within `i32`.
pub open spec fn sub_sat(a: Vec2, b: Vec2) -> Vec2 {
    Vec2 { x: clamp_i32(a.x - b.x) as i32, y: clamp_i32(a.y - b.y) as i32 }
}

/// The vector that points the other way, each component kept within `i32`.
pub open spec fn negated(v: Vec2) -> Vec2 {
    Vec2 { x: clamp_i32(-v.x) as i32, y: clamp_i32(-v.y) as i32 }
}

/// Whether `v` has a direction: it is not the zero vector.
pub open spec fn nonzero(v: Vec2) -> bool {
    v.x != 0 || v.y != 0
}

/// Whether `point` lies within the closed rectangle from `min` to `max`.
pub open spec fn in_rect(point: Vec2, min: Vec2, max: Vec2) -> bool {
    min.x <= point.x <= max.x && min.y <= point.y <= max.y
}

impl Vec2 {
    /// The origin.
    pub fn zero() -> (r: Vec2)
        ensures
            r == (Vec2 { x: 0, y: 0 }),
    {
        Vec2 { x: 0, y: 0 }
    }

    /// Componentwise sum; a component that leaves `i32` stays at its bound.
    pub fn saturating_add(self, other: Vec2) -> (r: Vec2)
        ensures
            r == add_sat(self, other),
    {
        Vec2 { x: clamp_to_i32(self.x as i64 + other.x as i64), y: clamp_to_i32(self.y as i64 + other.y as i64) }
    }

    /// Componentwise difference; a component that leaves `i32` stays at its
    /// bound.
    pub fn saturating_sub(self, other: Vec2) -> (r: Vec2)
        ensures
            r == sub_sat(self, other),
    {
        Vec2 { x: clamp_to_i32(self.x as i64 - other.x as i64), y: clamp_to_i32(self.y as i64 - other.y as i64) }
    }

    /// The vector that points the other way.
    pub fn negate(self) -> (r: Vec2)
        ensures
            r == negated(self),
    {
        Vec2 { x: clamp_to_i32(-(self.x as i64)), y: clamp_to_i32(-(self.y as i64)) }
    }

    /// Whether the vector is not the zero vector.
    pub fn is_nonzero(self) -> (r: bool)
        ensures
            r == nonzero(self),
    {
        self.x != 0 || self.y != 0
    }

    /// Squared length.
    pub fn length_squared(self) -> (r: u64)
        ensures
            r == norm_sq(self),
    {
        let ax: u64 = magnitude(self.x) as u64;
        let ay: u64 = magnitude(self.y) as u64;
        assert(ax * ax <= 0x4000_0000_0000_0000 && ay * ay <= 0x4000_0000_0000_0000) by (nonlinear_arith)
            requires
                ax <= 0x8000_0000,
                ay <= 0x8000_0000,
        ;
        assert(ax * ax == self.x * self.x && ay * ay == self.y * self.y) by (nonlinear_arith)
            requires
                ax == self.x || ax == -self.x,
                ay == self.y || ay == -self.y,
        ;
        ax * ax + ay * ay
    }
}

/// Squared distance between `a` and `b`.
pub fn distance_squared(a: Vec2, b: Vec2) -> (r: u128)
    ensures
        r == dist_sq(a, b),
{
    let dx: i64 = a.x as i64 - b.x as i64;
    let dy: i64 = a.y as i64 - b.y as i64;
    let ax: u128 = (if dx >= 0 { dx } else { -dx }) as u128;
    let ay: u128 = (if dy >= 0 { dy } else { -dy }) as u128;
    assert(ax * ax <= 0xffff_ffff * 0xffff_ffff && ay * ay <= 0xffff_ffff * 0xffff_ffff
        && ax * ax == dx * dx && ay * ay == dy * dy) by (nonlinear_arith)
        requires
            ax <= 0xffff_ffff,
            ay <= 0xffff_ffff,
            ax == dx || ax == -dx,
            ay == dy || ay == -dy,
    ;
    ax * ax + ay * ay
}

/// Absolute value of `v`.
pub open spec fn abs(v: int) -> int {
    if v >= 0 { v } else { -v }
}

/// Absolute value of `v`, which always fits in a `u32`.
pub fn magnitude(v: i32) -> (r: u32)
    ensures
        r == abs(v as int),
{
    if v >= 0 {
        v as u32
    } else {
        (-(v as i64)) as u32
    }
}

/// `v` as an `i32`, kept at the nearest bound where it does not fit.
pub fn clamp_to_i32(v: i64) -> (r: i32)
    ensures
        r == clamp_i32(v as int),
{
    if v < i32::MIN as i64 {
        i32::MIN
    } else if v > i32::MAX as i64 {
        i32::MAX
    } else {
        v as i32
    }
}

/// `n * m / d`, rounded toward zero and kept within `i32`.
pub open spec fn scale_spec(n: int, m: int, d: int) -> int
    recommends
        d != 0,
{
    clamp_i32(div_trunc(n * m, d))
}

/// Multiplies `n` by the ratio `m / d` without losing the product's low
/// digits: the quotient is rounded toward zero and kept within `i32`.
pub fn scale(n: i32, m: i32, d: u32) -> (r: i32)
    requires
        d > 0,
    ensures
        r == scale_spec(n as int, m as int, d as int),
{
    scale_wide(n as i64, m as i64, d)
}

/// Where the ray from the origin along `dir` leaves the rectangle from `min`
/// to `max`, and through which side.
///
/// The ray reaches the line of a vertical side at the parameter
/// `nx / |dir.x|` and that of a horizontal side at `ny / |dir.y|`; it leaves
/// through the side it reaches first, a vertical one when both are reached
/// together. The two parameters are compared exactly, by cross
/// multiplication.
pub open spec fn project_spec(dir: Vec2, min: Vec2, max: Vec2) -> Option<(Vec2, Edge)> {
    let nx: int = if dir.x > 0 { max.x as int } else { -min.x };
    let ny: int = if dir.y > 0 { max.y as int } else { -min.y };
    let ax = abs(dir.x as int);
    let ay = abs(dir.y as int);
    if dir.x == 0 && dir.y == 0 {
        None
    } else if dir.y == 0 || (dir.x != 0 && nx * ay <= ny * ax) {
        Some(
            (
                Vec2 {
                    x: if dir.x > 0 { max.x } else { min.x },
                    y: scale_spec(nx, dir.y as int, ax) as i32,
                },
                if dir.x > 0 { Edge::Right } else { Edge::Left },
            ),
        )
    } else {
        Some(
            (
                Vec2 {
                    x: scale_spec(ny, dir.x as int, ay) as i32,
                    y: if dir.y > 0 { max.y } else { min.y },
                },
                if dir.y > 0 { Edge::Top } else { Edge::Bottom },
            ),
        )
    }
}

/// Whether `point` lies on the side `edge` of the rectangle from `min` to `max`.
pub open spec fn on_edge(point: Vec2, edge: Edge, min: Vec2, max: Vec2) -> bool {
    in_rect(point, min, max) && match edge {
        Edge::Top => point.y == max.y,
        Edge::Bottom => point.y == min.y,
        Edge::Left => point.x == min.x,
        Edge::Right => point.x == max.x,
    }
}

/// A quotient of a product is bounded by the other side of a cross
/// multiplication.
proof fn lemma_cross_bound(n: int, a: int, m: int, d: int)
    by (nonlinear_arith)
    requires
        0 <= n,
        0 <= a,
        0 < d,
        n * a <= m * d,
    ensures
        0 <= (n * a) / d <= m,
{
}

/// The sign and size of a scaled value whose numerator is not negative.
proof fn lemma_scale_signed(n: int, m: int, d: int)
    requires
        0 <= n,
        0 < d,
    ensures
        m >= 0 ==> div_trunc(n * m, d) == (n * m) / d,
        m < 0 ==> div_trunc(n * m, d) == -((n * (-m)) / d),
{
    assert(m >= 0 ==> n * m >= 0) by (nonlinear_arith)
        requires
            0 <= n,
    ;
    assert(m < 0 ==> n * m <= 0 && -(n * m) == n * (-m)) by (nonlinear_arith)
        requires
            0 <= n,
    ;
    if m < 0 && n * m == 0 {
        assert(0int / d == 0);
    }
}

/// A ray that starts within a rectangle leaves it through a point of its
/// border: for every direction but the zero vector, and every rectangle that
/// holds the origin, the projection lies within the rectangle, on the side
/// that is named with it.
pub proof fn lemma_projection_on_edge(dir: Vec2, min: Vec2, max: Vec2)
    requires
        nonzero(dir),
        in_rect(Vec2 { x: 0, y: 0 }, min, max),
    ensures
        project_spec(dir, min, max) matches Some(hit) && on_edge(hit.0, hit.1, min, max),
{
    let nx: int = if dir.x > 0 { max.x as int } else { -min.x };
    let ny: int = if dir.y > 0 { max.y as int } else { -min.y };
    let ax = abs(dir.x as int);
    let ay = abs(dir.y as int);
    if dir.y == 0 || (dir.x != 0 && nx * ay <= ny * ax) {
        lemma_scale_signed(nx, dir.y as int, ax);
        if dir.y != 0 {
            lemma_cross_bound(nx, ay, ny, ax);
        } else {
            assert(nx * 0 == 0) by (nonlinear_arith);
            assert(0int / ax == 0);
        }
    } else {
        lemma_scale_signed(ny, dir.x as int, ay);
        if dir.x != 0 {
            lemma_cross_bound(ny, ax, nx, ay);
        } else {
            assert(ny * 0 == 0) by (nonlinear_arith);
            assert(0int / ay == 0);
        }
    }
}

/// Casts a ray from the origin along `dir` and returns the point where it
/// leaves the rectangle from `min` to `max`, with the side it leaves through.
///
/// A direction with both components zero points nowhere: the result is then
/// `None`, and only then. Where the origin lies within the rectangle, the
/// point lies on the named side of it.
pub fn project_onto_bounding_rectangle(dir: Vec2, min: Vec2, max: Vec2) -> (r: Option<(Vec2, Edge)>)
    ensures
        r == project_spec(dir, min, max),
        r is None <==> (dir.x == 0 && dir.y == 0),
        in_rect(Vec2 { x: 0, y: 0 }, min, max) ==> (r matches Some(hit) ==> on_edge(hit.0, hit.1, min, max)),
{
    if dir.x == 0 && dir.y == 0 {
        return None;
    }
    proof {
        if in_rect(Vec2 { x: 0, y: 0 }, min, max) {
            lemma_projection_on_edge(dir, min, max);
        }
    }
    let nx: i64 = if dir.x > 0 { max.x as i64 } else { -(min.x as i64) };
    let ny: i64 = if dir.y > 0 { max.y as i64 } else { -(min.y as i64) };
    let ax: u32 = magnitude(dir.x);
    let ay: u32 = magnitude(dir.y);
    assert(-0x4000_0000_0000_0000 <= nx * ay <= 0x4000_0000_0000_0000 && -0x4000_0000_0000_0000
        <= ny * ax <= 0x4000_0000_0000_0000) by (nonlinear_arith)
        requires
            -0x8000_0000 <= nx <= 0x8000_0000,
            -0x8000_0000 <= ny <= 0x8000_0000,
            0 <= ax <= 0x8000_0000,
            0 <= ay <= 0x8000_0000,
    ;
    let vertical: bool = dir.y == 0 || (dir.x != 0 && nx * (ay as i64) <= ny * (ax as i64));
    if vertical {
        let y: i32 = scale_wide(nx, dir.y as i64, ax);
        Some((Vec2 { x: if dir.x > 0 { max.x } else { min.x }, y }, if dir.x > 0 { Edge::Right } else { Edge::Left }))
    } else {
        let x: i32 = scale_wide(ny, dir.x as i64, ay);
        Some((Vec2 { x, y: if dir.y > 0 { max.y } else { min.y } }, if dir.y > 0 { Edge::Top } else { Edge::Bottom }))
    }
}

/// As `scale`, for factors that may lie one bit outside `i32`.
pub(crate) fn scale_wide(n: i64, m: i64, d: u32) -> (r: i32)
    requires
        d > 0,
        -0x8000_0000 <= n <= 0x8000_0000,
        -0x1_0000_0000 <= m <= 0x1_0000_0000,
    ensures
        r == scale_spec(n as int, m as int, d as int),
{
    assert(-0x8000_0000_0000_0000 <= n * m <= 0x8000_0000_0000_0000) by (nonlinear_arith)
        requires
            -0x8000_0000 <= n <= 0x8000_0000,
            -0x1_0000_0000 <= m <= 0x1_0000_0000,
    ;
    let p: i128 = (n as i128) * (m as i128);
    let q: i128 = if p >= 0 {
        (p as u128 / d as u128) as i128
    } else {
        -(((-p) as u128 / d as u128) as i128)
    };
    if q < i32::MIN as i128 {
        i32::MIN
    } else if q > i32::MAX as i128 {
        i32::MAX
    } else {
        q as i32
    }
}

/// Whether `r` is the square root of `n`, rounded up.
pub open spec fn is_ceil_sqrt(r: int, n: int) -> bool {
    0 <= r && r * r >= n && (r == 0 || (r - 1) * (r - 1) < n)
}

/// The square root of `n`, rounded up to a whole number.
pub open spec fn ceil_sqrt(n: int) -> int {
    choose|r: int| is_ceil_sqrt(r, n)
}

/// Squares grow with their roots.
proof fn lemma_square_monotone(a: int, b: int)
    by (nonlinear_arith)
    requires
        0 <= a <= b,
    ensures
        a * a <= b * b,
{
}

/// A number has one rounded-up square root.
pub proof fn lemma_ceil_sqrt_unique(r: int, n: int)
    requires
        is_ceil_sqrt(r, n),
    ensures
        ceil_sqrt(n) == r,
{
    let s = ceil_sqrt(n);
    if s < r {
        lemma_square_monotone(s, r - 1);
    } else if r < s {
        lemma_square_monotone(r, s - 1);
    }
}

/// The square root of `n`, rounded up.
pub fn ceil_sqrt_u64(n: u64) -> (r: u64)
    ensures
        r == ceil_sqrt(n as int),
        is_ceil_sqrt(r as int, n as int),
        r <= 0x1_0000_0000,
{
    let mut lo: u64 = 0;
    let mut hi: u64 = 0x1_0000_0000;
    assert(hi * hi >= n) by (nonlinear_arith)
        requires
            hi == 0x1_0000_0000,
            n <= u64::MAX,
    ;
    while lo < hi
        invariant
            lo <= hi <= 0x1_0000_0000,
            hi * hi >= n,
            lo == 0 || (lo - 1) * (lo - 1) < n,
        decreases hi - lo,
    {
        let mid: u64 = lo + (hi - lo) / 2;
        assert(mid * mid <= 0xffff_ffff * 0xffff_ffff) by (nonlinear_arith)
            requires
                mid <= 0xffff_ffff,
        ;
        if (mid as u128) * (mid as u128) >= n as u128 {
            hi = mid;
        } else {
            lo = mid + 1;
        }
    }
    proof {
        lemma_ceil_sqrt_unique(hi as int, n as int);
    }
    hi
}

/// `v` stretched or shrunk along its own direction to a length of at most
/// `target`: each component is multiplied by `target` and divided by the
/// rounded-up length of `v`.
pub open spec fn rescale_spec(v: Vec2, target: u32) -> Vec2 {
    let len = ceil_sqrt(norm_sq(v));
    Vec2 {
        x: scale_spec(v.x as int, target as int, len) as i32,
        y: scale_spec(v.y as int, target as int, len) as i32,
    }
}

/// `v` where it is no longer than `limit`, else `v` shortened to that length.
pub open spec fn clamp_length_spec(v: Vec2, limit: u32) -> Vec2 {
    if norm_sq(v) <= limit * limit { v } else { rescale_spec(v, limit) }
}

/// A component scaled by `t / len` is no larger than the real quotient.
proof fn lemma_scaled_component(c: int, t: int, len: int)
    requires
        0 <= t,
        0 < len,
    ensures
        abs(scale_spec(c, t, len)) <= abs(c) * t / len,
        abs(c) * t / len * len <= abs(c) * t,
        0 <= abs(c) * t / len,
{
    let a = abs(c);
    assert(a * t >= 0 && a * t / len * len <= a * t && a * t / len >= 0) by (nonlinear_arith)
        requires
            0 <= a,
            0 <= t,
            0 < len,
    ;
    if c >= 0 {
        assert(c * t >= 0) by (nonlinear_arith)
            requires
                0 <= c,
                0 <= t,
        ;
    } else {
        assert(c * t <= 0 && -(c * t) == a * t) by (nonlinear_arith)
            requires
                c < 0,
                a == -c,
                0 <= t,
        ;
        if c * t == 0 {
            assert(0int / len == 0);
        }
    }
}

/// Two components scaled by `t / len`, where `len` is at least the length of
/// the vector they form, make a vector no longer than `t`.
proof fn lemma_scaled_norm(qa: int, qb: int, a: int, b: int, t: int, len: int)
    by (nonlinear_arith)
    requires
        0 <= qa,
        0 <= qb,
        0 <= a,
        0 <= b,
        0 <= t,
        0 < len,
        qa * len <= a * t,
        qb * len <= b * t,
        a * a + b * b <= len * len,
    ensures
        qa * qa + qb * qb <= t * t,
{
    assert((qa * len) * (qa * len) <= (a * t) * (a * t));
    assert((qb * len) * (qb * len) <= (b * t) * (b * t));
    assert((qa * qa + qb * qb) * (len * len) <= (a * a + b * b) * (t * t));
    assert((a * a + b * b) * (t * t) <= (len * len) * (t * t));
    assert(len * len > 0);
}

/// A vector whose components are no larger than those of another is no
/// longer.
proof fn lemma_norm_bound(x: int, y: int, qa: int, qb: int)
    by (nonlinear_arith)
    requires
        abs(x) <= qa,
        abs(y) <= qb,
    ensures
        x * x + y * y <= qa * qa + qb * qb,
{
}

/// Rescaling never yields a vector longer than the target length.
pub proof fn lemma_rescale_bounded(v: Vec2, target: u32)
    requires
        v.x != 0 || v.y != 0,
    ensures
        norm_sq(rescale_spec(v, target)) <= target * target,
{
    let n = norm_sq(v);
    let len = ceil_sqrt(n);
    assert(n > 0) by (nonlinear_arith)
        requires
            n == v.x * v.x + v.y * v.y,
            v.x != 0 || v.y != 0,
    ;
    lemma_ceil_sqrt_exists(n);
    assert(len > 0) by (nonlinear_arith)
        requires
            0 <= len,
            len * len >= n,
            n > 0,
    ;
    let t = target as int;
    lemma_scaled_component(v.x as int, t, len);
    lemma_scaled_component(v.y as int, t, len);
    let a = abs(v.x as int);
    let b = abs(v.y as int);
    let qa = a * t / len;
    let qb = b * t / len;
    assert(a * a + b * b == n) by (nonlinear_arith)
        requires
            a == v.x || a == -v.x,
            b == v.y || b == -v.y,
            n == v.x * v.x + v.y * v.y,
    ;
    lemma_scaled_norm(qa, qb, a, b, t, len);
    let r = rescale_spec(v, target);
    assert(abs(r.x as int) <= qa);
    assert(abs(r.y as int) <= qb);
    lemma_norm_bound(r.x as int, r.y as int, qa, qb);
}

/// Holding a vector to a length never yields one longer than that length.
pub proof fn lemma_clamp_length_bounded(v: Vec2, limit: u32)
    ensures
        norm_sq(clamp_length_spec(v, limit)) <= limit * limit,
{
    if norm_sq(v) > limit * limit {
        assert(v.x != 0 || v.y != 0) by (nonlinear_arith)
            requires
                v.x * v.x + v.y * v.y > limit * limit,
                limit >= 0,
        ;
        lemma_rescale_bounded(v, limit);
    }
}

/// Every number that is not negative has a rounded-up square root.
pub proof fn lemma_ceil_sqrt_exists(n: int)
    requires
        0 <= n,
    ensures
        is_ceil_sqrt(ceil_sqrt(n), n),
    decreases n,
{
    if n == 0 {
        assert(is_ceil_sqrt(0, 0));
    } else {
        lemma_ceil_sqrt_exists(n - 1);
        let r = ceil_sqrt(n - 1);
        if r * r >= n {
            assert(r != 0) by (nonlinear_arith)
                requires
                    r * r >= n,
                    n > 0,
            ;
            assert(is_ceil_sqrt(r, n));
        } else {
            assert(r * r == n - 1);
            assert((r + 1) * (r + 1) >= n) by (nonlinear_arith)
                requires
                    r * r == n - 1,
                    r >= 0,
            ;
            assert(is_ceil_sqrt(r + 1, n));
        }
    }
}

/// Stretches or shrinks `v` along its own direction to a length of at most
/// `target`. The zero vector has no direction and is not accepted.
pub fn rescale(v: Vec2, target: u32) -> (r: Vec2)
    requires
        v.x != 0 || v.y != 0,
    ensures
        r == rescale_spec(v, target),
        norm_sq(r) <= target * target,
{
    let n: u64 = v.length_squared();
    let len: u64 = ceil_sqrt_u64(n);
    assert(n > 0) by (nonlinear_arith)
        requires
            n == v.x * v.x + v.y * v.y,
            v.x != 0 || v.y != 0,
    ;
    assert(len > 0) by (nonlinear_arith)
        requires
            len * len >= n,
            n > 0,
    ;
    assert(len <= 0xffff_ffff) by {
        if len == 0x1_0000_0000 {
            assert((len - 1) * (len - 1) >= 0x8000_0000_0000_0000) by (nonlinear_arith)
                requires
                    len == 0x1_0000_0000,
            ;
            assert(v.x * v.x <= 0x4000_0000_0000_0000 && v.y * v.y <= 0x4000_0000_0000_0000)
                by (nonlinear_arith)
                requires
                    -0x8000_0000 <= v.x <= 0x8000_0000,
                    -0x8000_0000 <= v.y <= 0x8000_0000,
            ;
        }
    }
    proof {
        lemma_rescale_bounded(v, target);
    }
    Vec2 {
        x: scale_wide(v.x as i64, target as i64, len as u32),
        y: scale_wide(v.y as i64, target as i64, len as u32),
    }
}

/// Shortens `v` to the length `limit` where it is longer, and leaves it
/// alone where it is not. The result is never longer than `limit`.
pub fn clamp_length_max(v: Vec2, limit: u32) -> (r: Vec2)
    ensures
        r == clamp_length_spec(v, limit),
        norm_sq(r) <= limit * limit,
{
    let n: u64 = v.length_squared();
    assert(limit * limit <= 0xffff_ffff * 0xffff_ffff) by (nonlinear_arith)
        requires
            limit <= 0xffff_ffff,
    ;
    let bound: u64 = (limit as u64) * (limit as u64);
    if n <= bound {
        v
    } else {
        rescale(v, limit)
    }
}

/// Whether `point` lies within the closed rectangle from `min` to `max`.
pub fn point_in_rect(point: Vec2, min: Vec2, max: Vec2) -> (r: bool)
    ensures
        r == in_rect(point, min, max),
{
    !(point.x < min.x || point.x > max.x || point.y < min.y || point.y > max.y)
}

} // verus!
