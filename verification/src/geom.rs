//! Integer plane geometry for the simulation.
//!
//! Positions are pairs of `i64` milliunit coordinates. Direction vectors are
//! fixed-point unit vectors scaled by [`crate::MILLI`]. Squared distances are
//! exact `u128` values; lengths come from a verified integer square root.

use vstd::prelude::*;

verus! {

use crate::MILLI;
use crate::WORLD_LIMIT;

/// A point or vector of the simulation plane, in milliunit coordinates.
#[derive(Clone, Copy, PartialEq, Eq, Structural, Debug)]
pub struct Vec2i {
    pub x: i64,
    pub y: i64,
}

/// Coordinates small enough that every arithmetic step of the simulation
/// stays inside the machine integer ranges.
pub open spec fn in_world(v: Vec2i) -> bool {
    -WORLD_LIMIT <= v.x <= WORLD_LIMIT && -WORLD_LIMIT <= v.y <= WORLD_LIMIT
}

pub open spec fn sq(d: int) -> int {
    d * d
}

/// Squared distance between two points, in squared milliunits.
pub open spec fn dist_sq_spec(a: Vec2i, b: Vec2i) -> int {
    sq(a.x - b.x) + sq(a.y - b.y)
}

/// Exact squared distance between two in-world points.
pub fn dist_sq(a: Vec2i, b: Vec2i) -> (r: u128)
    requires
        in_world(a),
        in_world(b),
    ensures
        r == dist_sq_spec(a, b),
{
    let dx: i64 = a.x - b.x;
    let dy: i64 = a.y - b.y;
    let ax: u64 = if dx >= 0 { dx as u64 } else { (-dx) as u64 };
    let ay: u64 = if dy >= 0 { dy as u64 } else { (-dy) as u64 };
    proof {
        assert((ax as int) * (ax as int) <= 0x1_0000_0000_0000_0000_0000_0000
            && (ay as int) * (ay as int) <= 0x1_0000_0000_0000_0000_0000_0000) by (nonlinear_arith)
            requires
                ax <= 0x8000_0000_0000u64,
                ay <= 0x8000_0000_0000u64,
        ;
    }
    let sx: u128 = (ax as u128) * (ax as u128);
    let sy: u128 = (ay as u128) * (ay as u128);
    proof {
        assert(sx == sq(a.x - b.x)) by (nonlinear_arith)
            requires
                sx == (ax as int) * (ax as int),
                ax as int == if dx >= 0 { dx as int } else { -(dx as int) },
                dx == a.x - b.x,
        ;
        assert(sy == sq(a.y - b.y)) by (nonlinear_arith)
            requires
                sy == (ay as int) * (ay as int),
                ay as int == if dy >= 0 { dy as int } else { -(dy as int) },
                dy == a.y - b.y,
        ;
        assert(sx + sy <= 0x2_0000_0000_0000_0000_0000_0000u128);
    }
    sx + sy
}

/// Exact square of a bounded nonnegative length, for threshold
/// comparisons against squared distances.
pub fn sq_u128(v: i64) -> (r: u128)
    requires
        0 <= v <= 0x1_0000_0000_0000i64,
    ensures
        r == sq(v as int),
{
    proof {
        assert(0 <= (v as int) * (v as int) <= 0x1_0000_0000_0000_0000_0000_0000) by (
        nonlinear_arith)
            requires
                0 <= v <= 0x1_0000_0000_0000i64,
        ;
    }
    (v as u128) * (v as u128)
}

/// Upper bound on inputs of [`isqrt`]: the square of `2^63`.
pub const ISQRT_INPUT_LIMIT: u128 = 0x4000_0000_0000_0000_0000_0000_0000_0000;

/// Integer square root: the greatest `r` with `r * r <= n`.
pub fn isqrt(n: u128) -> (r: u64)
    requires
        n < ISQRT_INPUT_LIMIT,
    ensures
        (r as int) * (r as int) <= n < (r + 1) * (r + 1),
{
    let mut lo: u64 = 0;
    let hi0: u64 = 0x8000_0000_0000_0000;
    let mut hi: u64 = hi0;
    proof {
        assert((hi0 as int) * (hi0 as int) == ISQRT_INPUT_LIMIT) by (nonlinear_arith)
            requires
                hi0 == 0x8000_0000_0000_0000u64,
        ;
    }
    // Invariant: lo * lo <= n < hi * hi, so the answer lies in [lo, hi).
    while lo + 1 < hi
        invariant
            lo < hi <= 0x8000_0000_0000_0000u64,
            (lo as int) * (lo as int) <= n,
            n < (hi as int) * (hi as int),
        decreases hi - lo,
    {
        let mid: u64 = lo + (hi - lo) / 2;
        proof {
            assert((mid as int) * (mid as int) <= ISQRT_INPUT_LIMIT) by (nonlinear_arith)
                requires
                    mid <= 0x8000_0000_0000_0000u64,
                    ISQRT_INPUT_LIMIT == 0x4000_0000_0000_0000_0000_0000_0000_0000u128,
            ;
        }
        let msq: u128 = (mid as u128) * (mid as u128);
        if msq <= n {
            lo = mid;
        } else {
            hi = mid;
        }
    }
    lo
}

/// The integer square root is monotone and exact on perfect squares; together
/// these pin the root of a sum of squares below each component.
pub proof fn lemma_isqrt_component_bound(r: int, d: int, n: int)
    requires
        0 <= d,
        d * d <= n,
        0 <= r,
        r * r <= n < (r + 1) * (r + 1),
    ensures
        d <= r,
{
    if d > r {
        assert(d >= r + 1);
        assert((r + 1) * (r + 1) <= d * d) by (nonlinear_arith)
            requires
                0 <= r + 1 <= d,
        ;
    }
}

/// Length of the vector from `a` to `b`, rounded down, in milliunits.
pub fn dist_milli(a: Vec2i, b: Vec2i) -> (r: u64)
    requires
        in_world(a),
        in_world(b),
    ensures
        (r as int) * (r as int) <= dist_sq_spec(a, b) < (r + 1) * (r + 1),
{
    let s: u128 = dist_sq(a, b);
    assert(s < ISQRT_INPUT_LIMIT) by (nonlinear_arith)
        requires
            s == dist_sq_spec(a, b),
            -WORLD_LIMIT <= a.x <= WORLD_LIMIT,
            -WORLD_LIMIT <= a.y <= WORLD_LIMIT,
            -WORLD_LIMIT <= b.x <= WORLD_LIMIT,
            -WORLD_LIMIT <= b.y <= WORLD_LIMIT,
            WORLD_LIMIT == 0x4000_0000_0000i64,
            ISQRT_INPUT_LIMIT == 0x4000_0000_0000_0000_0000_0000_0000_0000u128,
    ;
    isqrt(s)
}

pub open spec fn abs_int(v: int) -> int {
    if v >= 0 {
        v
    } else {
        -v
    }
}

/// The mathematical integer square root: the unique `r >= 0` with
/// `r * r <= n < (r + 1) * (r + 1)`.
pub open spec fn isqrt_spec(n: int) -> int
    recommends
        n >= 0,
{
    choose|r: int| 0 <= r && #[trigger] (r * r) <= n < (r + 1) * (r + 1)
}

/// Any root bracketing `n` is the root: pins `isqrt_spec` to a witness.
pub proof fn lemma_isqrt_spec_eq(n: int, r: int)
    requires
        0 <= r,
        r * r <= n < (r + 1) * (r + 1),
    ensures
        isqrt_spec(n) == r,
{
    assert(0 <= r && r * r <= n < (r + 1) * (r + 1));
    let c = isqrt_spec(n);
    assert(0 <= c && c * c <= n < (c + 1) * (c + 1));
    if c < r {
        assert((c + 1) * (c + 1) <= r * r) by (nonlinear_arith)
            requires
                0 <= c + 1 <= r,
        ;
    }
    if r < c {
        assert((r + 1) * (r + 1) <= c * c) by (nonlinear_arith)
            requires
                0 <= r + 1 <= c,
        ;
    }
}

/// The mathematical value of [`dir_milli`]: the zero vector for coincident
/// points, else each leg scaled by `MILLI` over the rounded-down length,
/// magnitudes rounded down, signs kept.
pub open spec fn dir_spec(from: Vec2i, to: Vec2i) -> Vec2i {
    if from == to {
        Vec2i { x: 0, y: 0 }
    } else {
        let dx = to.x - from.x;
        let dy = to.y - from.y;
        let len = isqrt_spec(dist_sq_spec(from, to));
        let mx = (abs_int(dx) * 1000) / len;
        let my = (abs_int(dy) * 1000) / len;
        Vec2i {
            x: (if dx >= 0 {
                mx
            } else {
                -mx
            }) as i64,
            y: (if dy >= 0 {
                my
            } else {
                -my
            }) as i64,
        }
    }
}

/// Magnitude scaled by `num / den`, keeping the sign of `v`: the
/// mathematical value of `scale_milli`.
pub open spec fn scale_spec(v: int, num: int, den: int) -> int
    recommends
        den > 0,
{
    if v >= 0 {
        (v * num) / den
    } else {
        -(((-v) * num) / den)
    }
}

/// Multiply a signed milliunit quantity by the ratio `num / den`, rounding
/// the magnitude down. Used for velocity integration and fixed-point scaling.
pub fn scale_milli(v: i64, num: u64, den: u64) -> (r: i64)
    requires
        -0x4000_0000_0000_0000i64 < v < 0x4000_0000_0000_0000i64,
        0 < den,
        num <= 0x1_0000_0000_0000,
        (v as int) * (num as int) < 0x7fff_ffff_ffff_ffff * (den as int),
        -(0x7fff_ffff_ffff_ffff * (den as int)) < (v as int) * (num as int),
    ensures
        r == scale_spec(v as int, num as int, den as int),
        v >= 0 ==> 0 <= r <= (v as int) * (num as int) / (den as int),
        v < 0 ==> r <= 0,
{
    if v >= 0 {
        proof {
            assert((v as int) * (num as int) <= 0x4000_0000_0000_0000_0000_0000_0000) by (nonlinear_arith)
                requires
                    0 <= v < 0x4000_0000_0000_0000i64,
                    num <= 0x1_0000_0000_0000u64,
            ;
        }
        let prod: u128 = (v as u128) * (num as u128);
        assert(prod / (den as u128) < 0x8000_0000_0000_0000u128) by (nonlinear_arith)
            requires
                prod == (v as u128) * (num as u128),
                v >= 0,
                0 < den,
                (v as int) * (num as int) < 0x7fff_ffff_ffff_ffff * (den as int),
        ;
        let q: u64 = (prod / (den as u128)) as u64;
        assert(q as int == (v as int * num as int) / (den as int)) by (nonlinear_arith)
            requires
                prod == (v as u128) * (num as u128),
                q == prod / (den as u128),
                v >= 0,
                0 < den,
                prod / (den as u128) < 0x8000_0000_0000_0000u128,
        ;
        q as i64
    } else {
        let m: u64 = (-v) as u64;
        proof {
            assert((m as int) * (num as int) <= 0x4000_0000_0000_0000_0000_0000_0000) by (nonlinear_arith)
                requires
                    m <= 0x4000_0000_0000_0000u64,
                    num <= 0x1_0000_0000_0000u64,
            ;
        }
        let prod: u128 = (m as u128) * (num as u128);
        assert(prod / (den as u128) < 0x8000_0000_0000_0000u128) by (nonlinear_arith)
            requires
                prod == (m as u128) * (num as u128),
                m == -v,
                v < 0,
                0 < den,
                -(0x7fff_ffff_ffff_ffff * (den as int)) < (v as int) * (num as int),
        ;
        let q: u64 = (prod / (den as u128)) as u64;
        assert(q as int == ((-(v as int)) * num as int) / (den as int)) by (nonlinear_arith)
            requires
                prod == (m as u128) * (num as u128),
                q == prod / (den as u128),
                m == -v,
                v < 0,
                0 < den,
                prod / (den as u128) < 0x8000_0000_0000_0000u128,
        ;
        -(q as i64)
    }
}

/// Componentwise velocity from a fixed-point unit direction and a speed:
/// `dir` scaled by `speed_milli / MILLI`.
pub open spec fn vel_spec(dir: Vec2i, speed_milli: int) -> Vec2i {
    Vec2i {
        x: scale_spec(dir.x as int, speed_milli, 1000) as i64,
        y: scale_spec(dir.y as int, speed_milli, 1000) as i64,
    }
}

/// Build a velocity vector, in milliunits per second, from a direction out
/// of [`dir_milli`] and a speed. Each component is bounded by the speed and
/// keeps the direction's sign.
pub fn vel_from_dir(dir: Vec2i, speed_milli: i64) -> (r: Vec2i)
    requires
        -MILLI <= dir.x <= MILLI,
        -MILLI <= dir.y <= MILLI,
        0 <= speed_milli <= 0x100_0000_0000i64,
    ensures
        r == vel_spec(dir, speed_milli as int),
        -speed_milli <= r.x <= speed_milli,
        -speed_milli <= r.y <= speed_milli,
        dir.x >= 0 ==> r.x >= 0,
        dir.x <= 0 ==> r.x <= 0,
        dir.y >= 0 ==> r.y >= 0,
        dir.y <= 0 ==> r.y <= 0,
{
    proof {
        lemma_scale_component_bound(dir.x as int, speed_milli as int);
        lemma_scale_component_bound(dir.y as int, speed_milli as int);
    }
    let x: i64 = scale_milli(dir.x, speed_milli as u64, 1000);
    let y: i64 = scale_milli(dir.y, speed_milli as u64, 1000);
    Vec2i { x, y }
}

/// A direction component of magnitude at most 1000, scaled by
/// `speed / 1000`, has magnitude at most the speed.
pub proof fn lemma_scale_component_bound(d: int, speed: int)
    requires
        -1000 <= d <= 1000,
        0 <= speed <= 0x100_0000_0000,
    ensures
        -speed <= scale_spec(d, speed, 1000) <= speed,
        -(0x7fff_ffff_ffff_ffff * 1000) < d * speed < 0x7fff_ffff_ffff_ffff * 1000,
        d >= 0 ==> scale_spec(d, speed, 1000) >= 0,
        d <= 0 ==> scale_spec(d, speed, 1000) <= 0,
{
    assert(-(1000 * 0x100_0000_0000) <= d * speed <= 1000 * 0x100_0000_0000) by (nonlinear_arith)
        requires
            -1000 <= d <= 1000,
            0 <= speed <= 0x100_0000_0000,
    ;
    if d >= 0 {
        assert(0 <= (d * speed) / 1000 <= speed) by (nonlinear_arith)
            requires
                0 <= d <= 1000,
                0 <= speed,
        ;
        assert(d * speed <= 1000 * speed) by (nonlinear_arith)
            requires
                0 <= d <= 1000,
                0 <= speed,
        ;
    } else {
        assert(0 <= ((-d) * speed) / 1000 <= speed) by (nonlinear_arith)
            requires
                -1000 <= d < 0,
                0 <= speed,
        ;
        assert(d * speed >= -(1000 * speed)) by (nonlinear_arith)
            requires
                -1000 <= d < 0,
                0 <= speed,
        ;
    }
}

/// Clamp a coordinate back into the world range.
pub open spec fn clamp_world_spec(v: int) -> int {
    if v < -WORLD_LIMIT {
        -WORLD_LIMIT as int
    } else if v > WORLD_LIMIT {
        WORLD_LIMIT as int
    } else {
        v
    }
}

pub fn clamp_world(v: i64) -> (r: i64)
    ensures
        r == clamp_world_spec(v as int),
        -WORLD_LIMIT <= r <= WORLD_LIMIT,
{
    if v < -WORLD_LIMIT {
        -WORLD_LIMIT
    } else if v > WORLD_LIMIT {
        WORLD_LIMIT
    } else {
        v
    }
}

/// A fixed-point unit vector from `from` toward `to`, scaled by [`MILLI`]:
/// both components have magnitude at most `MILLI`, and the zero vector comes
/// back only when the points coincide.
pub fn dir_milli(from: Vec2i, to: Vec2i) -> (r: Vec2i)
    requires
        in_world(from),
        in_world(to),
    ensures
        -MILLI <= r.x <= MILLI,
        -MILLI <= r.y <= MILLI,
        (r == (Vec2i { x: 0i64, y: 0i64 })) <==> from == to,
        to.x > from.x ==> r.x >= 0,
        to.x < from.x ==> r.x <= 0,
        to.y > from.y ==> r.y >= 0,
        to.y < from.y ==> r.y <= 0,
        from != to && to.x == from.x ==> r.x == 0,
        from != to && to.y == from.y ==> r.y == 0,
        r == dir_spec(from, to),
{
    let dx: i64 = to.x - from.x;
    let dy: i64 = to.y - from.y;
    if dx == 0 && dy == 0 {
        return Vec2i { x: 0, y: 0 };
    }
    let len: u64 = dist_milli(to, from);
    proof {
        assert(sq(to.x - from.x) == sq(from.x - to.x) && sq(to.y - from.y) == sq(
            from.y - to.y,
        )) by (nonlinear_arith);
        assert(dist_sq_spec(to, from) == dist_sq_spec(from, to));
    }
    let ax: u64 = if dx >= 0 { dx as u64 } else { (-dx) as u64 };
    let ay: u64 = if dy >= 0 { dy as u64 } else { (-dy) as u64 };
    proof {
        let n: int = dist_sq_spec(to, from);
        assert(n == sq(dx as int) + sq(dy as int));
        assert(sq(ax as int) == sq(dx as int)) by (nonlinear_arith)
            requires
                ax as int == if dx >= 0 { dx as int } else { -(dx as int) },
        ;
        assert(sq(ay as int) == sq(dy as int)) by (nonlinear_arith)
            requires
                ay as int == if dy >= 0 { dy as int } else { -(dy as int) },
        ;
        assert(0 <= sq(ax as int)) by (nonlinear_arith);
        assert(0 <= sq(ay as int)) by (nonlinear_arith);
        if ax >= 1 {
            assert(1 <= sq(ax as int)) by (nonlinear_arith)
                requires
                    1 <= ax,
            ;
        } else {
            assert(1 <= sq(ay as int)) by (nonlinear_arith)
                requires
                    1 <= ay,
            ;
        }
        assert(1 <= n);
        if len == 0 {
            assert((len as int + 1) * (len as int + 1) == 1) by (nonlinear_arith)
                requires
                    len == 0u64,
            ;
        }
        assert(1 <= len);
        lemma_isqrt_component_bound(len as int, ax as int, n);
        lemma_isqrt_component_bound(len as int, ay as int, n);
        assert((ax as int) * 1000 <= 0x1_0000_0000_0000_0000) by (nonlinear_arith)
            requires
                ax <= 0x8000_0000_0000u64,
        ;
        assert((ay as int) * 1000 <= 0x1_0000_0000_0000_0000) by (nonlinear_arith)
            requires
                ay <= 0x8000_0000_0000u64,
        ;
    }
    let prodx: u128 = (ax as u128) * 1000;
    let prody: u128 = (ay as u128) * 1000;
    let qx: u128 = prodx / (len as u128);
    let qy: u128 = prody / (len as u128);
    proof {
        assert(qx as int <= 1000 && qy as int <= 1000) by (nonlinear_arith)
            requires
                qx as int == (prodx as int) / (len as int),
                qy as int == (prody as int) / (len as int),
                prodx as int == (ax as int) * 1000,
                prody as int == (ay as int) * 1000,
                ax <= len,
                ay <= len,
                0 < len,
        ;
    }
    let mx: u64 = qx as u64;
    let my: u64 = qy as u64;
    let rx: i64 = if dx >= 0 { mx as i64 } else { -(mx as i64) };
    let ry: i64 = if dy >= 0 { my as i64 } else { -(my as i64) };
    proof {
        // At least one component of the result is nonzero: the longer leg,
        // scaled by MILLI and divided by the hypotenuse, cannot vanish.
        let adx: int = ax as int;
        let ady: int = ay as int;
        let n: int = dist_sq_spec(to, from);
        assert(n <= (adx + ady) * (adx + ady)) by (nonlinear_arith)
            requires
                n == sq(dx as int) + sq(dy as int),
                adx == if dx >= 0 { dx as int } else { -(dx as int) },
                ady == if dy >= 0 { dy as int } else { -(dy as int) },
        ;
        assert(len as int <= adx + ady) by {
            if len as int > adx + ady {
                assert((adx + ady) * (adx + ady) < (len as int) * (len as int)) by (nonlinear_arith)
                    requires
                        0 <= adx + ady < len as int,
                ;
            }
        }
        if mx == 0 && my == 0 {
            assert(false) by (nonlinear_arith)
                requires
                    qx as int == (adx * 1000) / (len as int),
                    qy as int == (ady * 1000) / (len as int),
                    qx as int == 0,
                    qy as int == 0,
                    len as int <= adx + ady,
                    0 <= adx,
                    0 <= ady,
                    0 < len,
            ;
        }
    }
    proof {
        lemma_isqrt_spec_eq(dist_sq_spec(from, to), len as int);
        assert(ax as int == abs_int(dx as int) && ay as int == abs_int(dy as int));
        assert(mx as int == (abs_int(dx as int) * 1000) / (len as int));
        assert(my as int == (abs_int(dy as int) * 1000) / (len as int));
        assert((Vec2i { x: rx, y: ry }) == dir_spec(from, to));
    }
    Vec2i { x: rx, y: ry }
}

} // verus!
