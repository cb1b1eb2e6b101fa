//! Fixed-point helpers for the simulation: every world quantity is an `i64`
//! counted in thousandths of a world unit (`crate::SCALE`).  This module
//! holds the small amount of real arithmetic the game needs: an integer
//! square root, clamping, the per-tick velocity growth, and rescaling a
//! direction vector to a target speed.

use vstd::prelude::*;

verus! {

use vstd::arithmetic::div_mod::lemma_div_is_ordered;
use vstd::arithmetic::div_mod::lemma_div_nonincreasing;
use vstd::arithmetic::div_mod::lemma_div_pos_is_pos;
use vstd::arithmetic::div_mod::lemma_fundamental_div_mod;
use vstd::arithmetic::div_mod::lemma_mod_bound;
use vstd::arithmetic::mul::lemma_mul_inequality;
use vstd::math::abs;

/// Mathematical floor of the square root: the largest `r` with `r * r <= n`.
pub open spec fn sqrt_floor(n: nat) -> nat
    decreases n,
{
    if n == 0 {
        0
    } else {
        let r = sqrt_floor((n - 1) as nat);
        if (r + 1) * (r + 1) <= n {
            r + 1
        } else {
            r
        }
    }
}

/// `sqrt_floor(n)` is indeed the floor of the square root of `n`.
pub proof fn lemma_sqrt_floor_bounds(n: nat)
    ensures
        sqrt_floor(n) * sqrt_floor(n) <= n,
        n < (sqrt_floor(n) + 1) * (sqrt_floor(n) + 1),
    decreases n,
{
    if n == 0 {
        let s = sqrt_floor(n);
        assert(s == 0);
        assert((s + 1) * (s + 1) == 1) by (nonlinear_arith)
            requires
                s == 0,
        ;
    } else {
        lemma_sqrt_floor_bounds((n - 1) as nat);
        let r = sqrt_floor((n - 1) as nat);
        assert(sqrt_floor(n) == if (r + 1) * (r + 1) <= n {
            r + 1
        } else {
            r
        });
        if (r + 1) * (r + 1) <= n {
            assert((r + 1) * (r + 1) < (r + 2) * (r + 2)) by (nonlinear_arith);
        }
    }
}

/// Any `r` bracketing `n` between consecutive squares is the square root floor.
pub proof fn lemma_sqrt_floor_unique(n: nat, r: nat)
    requires
        r * r <= n,
        n < (r + 1) * (r + 1),
    ensures
        sqrt_floor(n) == r,
{
    let s = sqrt_floor(n);
    lemma_sqrt_floor_bounds(n);
    if s < r {
        lemma_mul_inequality(s as int + 1, r as int, s as int + 1);
        lemma_mul_inequality(s as int + 1, r as int, r as int);
        assert(false);
    }
    if r < s {
        lemma_mul_inequality(r as int + 1, s as int, r as int + 1);
        lemma_mul_inequality(r as int + 1, s as int, s as int);
        assert(false);
    }
}

/// Integer square root by bisection.
pub fn isqrt(n: u64) -> (r: u64)
    requires
        n < 0x4000_0000_0000_0000,
    ensures
        r == sqrt_floor(n as nat),
{
    let mut lo: u64 = 0;
    let mut hi: u64 = 0x8000_0000;
    assert(0x8000_0000u64 * 0x8000_0000u64 == 0x4000_0000_0000_0000u64) by (nonlinear_arith);
    while lo + 1 < hi
        invariant
            lo < hi <= 0x8000_0000,
            lo * lo <= n,
            n < hi * hi,
        decreases hi - lo,
    {
        let mid = lo + (hi - lo) / 2;
        assert(mid * mid <= 0x8000_0000u64 * 0x8000_0000u64) by (nonlinear_arith)
            requires
                mid <= 0x8000_0000u64,
        ;
        if mid * mid <= n {
            lo = mid;
        } else {
            hi = mid;
        }
    }
    proof {
        lemma_sqrt_floor_unique(n as nat, lo as nat);
    }
    lo
}

/// Largest velocity component the simulation represents, in fixed-point
/// steps per tick.  Far beyond anything reachable in play; it only keeps the
/// unbounded 1.01x-per-tick growth total on `i64`.
pub const V_CAP: i64 = 1_000_000_000_000;

/// Largest position coordinate the simulation represents, in fixed-point
/// steps.  Far beyond any viewport; it keeps per-tick movement total.
pub const P_CAP: i64 = 1_000_000_000_000_000;

/// `x` pulled into the interval `[lo, hi]`.
pub open spec fn clamped(x: int, lo: int, hi: int) -> int {
    if x < lo {
        lo
    } else if x > hi {
        hi
    } else {
        x
    }
}

pub fn clamp_i64(x: i64, lo: i64, hi: i64) -> (r: i64)
    requires
        lo <= hi,
    ensures
        r == clamped(x as int, lo as int, hi as int),
{
    if x < lo {
        lo
    } else if x > hi {
        hi
    } else {
        x
    }
}

/// One tick of gentle acceleration: the velocity component scaled by
/// 101/100, rounded toward zero, and saturated at the representation cap.
pub open spec fn grown(v: int) -> int {
    if v >= 0 {
        clamped((v * 101) / 100, -(V_CAP as int), V_CAP as int)
    } else {
        clamped(-(((-v) * 101) / 100), -(V_CAP as int), V_CAP as int)
    }
}

pub fn grow(v: i64) -> (r: i64)
    requires
        -V_CAP <= v <= V_CAP,
    ensures
        r == grown(v as int),
        -V_CAP <= r <= V_CAP,
{
    let mag: i64 = if v >= 0 {
        v
    } else {
        -v
    };
    let g: i64 = mag * 101 / 100;
    let g: i64 = if g > V_CAP {
        V_CAP
    } else {
        g
    };
    if v >= 0 {
        g
    } else {
        -g
    }
}

/// Law: one tick of acceleration scales a velocity component by exactly
/// 101/100 up to rounding toward zero: the result, times 100, is within 99
/// fixed-point steps of the component times 101.  Holds whenever the
/// representation cap `V_CAP` is not in play.
pub proof fn lemma_grown_ratio(v: int)
    requires
        -990_000_000_000 <= v <= 990_000_000_000,
    ensures
        101 * v - 99 <= 100 * grown(v) <= 101 * v + 99,
{
    if v >= 0 {
        lemma_fundamental_div_mod(v * 101, 100);
        lemma_mod_bound(v * 101, 100);
        lemma_div_pos_is_pos(v * 101, 100);
        assert(v * 101 == 101 * v) by (nonlinear_arith);
    } else {
        let m = -v;
        lemma_fundamental_div_mod(m * 101, 100);
        lemma_mod_bound(m * 101, 100);
        lemma_div_pos_is_pos(m * 101, 100);
        assert(m * 101 == -(101 * v)) by (nonlinear_arith)
            requires
                m == -v,
        ;
    }
}

/// Squared length of a fixed-point vector.
pub open spec fn vec_norm_sq(dx: int, dy: int) -> int {
    dx * dx + dy * dy
}

/// Law: one tick of acceleration scales the squared speed by 1.01 squared
/// (10201/10000), up to the rounding of each component: the error term is
/// linear in the speed, so it vanishes relative to the squared speed.
/// Holds whenever the representation cap `V_CAP` is not in play.
pub proof fn lemma_grown_speed(x: int, y: int)
    requires
        -990_000_000_000 <= x <= 990_000_000_000,
        -990_000_000_000 <= y <= 990_000_000_000,
    ensures
        10201 * vec_norm_sq(x, y) - 20000 * (abs(x) + abs(y)) - 19602 <= 10000 * vec_norm_sq(
            grown(x),
            grown(y),
        ),
        10000 * vec_norm_sq(grown(x), grown(y)) <= 10201 * vec_norm_sq(x, y) + 20000 * (abs(x)
            + abs(y)) + 19602,
{
    lemma_grown_ratio(x);
    lemma_grown_ratio(y);
    let gx = grown(x);
    let gy = grown(y);
    assert((101 * x) * (101 * x) - 19998 * abs(x) - 9801 <= (100 * gx) * (100 * gx) <= (101 * x)
        * (101 * x) + 19998 * abs(x) + 9801) by (nonlinear_arith)
        requires
            101 * x - 99 <= 100 * gx <= 101 * x + 99,
            abs(x) == if x >= 0 { x } else { -x },
    ;
    assert((101 * y) * (101 * y) - 19998 * abs(y) - 9801 <= (100 * gy) * (100 * gy) <= (101 * y)
        * (101 * y) + 19998 * abs(y) + 9801) by (nonlinear_arith)
        requires
            101 * y - 99 <= 100 * gy <= 101 * y + 99,
            abs(y) == if y >= 0 { y } else { -y },
    ;
    assert((100 * gx) * (100 * gx) + (100 * gy) * (100 * gy) == 10000 * vec_norm_sq(gx, gy)
        && (101 * x) * (101 * x) + (101 * y) * (101 * y) == 10201 * vec_norm_sq(x, y)) by (
    nonlinear_arith)
        requires
            vec_norm_sq(gx, gy) == gx * gx + gy * gy,
            vec_norm_sq(x, y) == x * x + y * y,
    ;
}

/// One component of a vector rescaled to speed `s`: multiplied by `s`,
/// divided (rounded toward zero) by the vector's length floor `d`.
pub open spec fn scale_component(c: int, s: int, d: int) -> int {
    if c >= 0 {
        (c * s) / d
    } else {
        -(((-c) * s) / d)
    }
}

pub open spec fn scaled_x(dx: int, dy: int, s: int) -> int {
    scale_component(dx, s, sqrt_floor(vec_norm_sq(dx, dy) as nat) as int)
}

pub open spec fn scaled_y(dx: int, dy: int, s: int) -> int {
    scale_component(dy, s, sqrt_floor(vec_norm_sq(dx, dy) as nat) as int)
}

/// Rescale the direction `(dx, dy)` so that its length is close to `s`
/// (exactly how close is `lemma_scaled_speed`).
pub fn scale_to_speed(dx: i64, dy: i64, s: i64) -> (r: (i64, i64))
    requires
        1 <= vec_norm_sq(dx as int, dy as int),
        -30_000_000 <= dx <= 30_000_000,
        -30_000_000 <= dy <= 30_000_000,
        0 <= s <= 100_000,
    ensures
        r.0 == scaled_x(dx as int, dy as int, s as int),
        r.1 == scaled_y(dx as int, dy as int, s as int),
{
    let ax: i64 = if dx >= 0 {
        dx
    } else {
        -dx
    };
    let ay: i64 = if dy >= 0 {
        dy
    } else {
        -dy
    };
    assert(ax * ax + ay * ay == vec_norm_sq(dx as int, dy as int)
        && ax * ax + ay * ay <= 1_800_000_000_000_000) by (nonlinear_arith)
        requires
            0 <= ax <= 30_000_000,
            0 <= ay <= 30_000_000,
            ax == if dx >= 0 { dx as int } else { -(dx as int) },
            ay == if dy >= 0 { dy as int } else { -(dy as int) },
    ;
    let nsq: u64 = (ax * ax + ay * ay) as u64;
    let d_floor: u64 = isqrt(nsq);
    proof {
        lemma_sqrt_floor_bounds(nsq as nat);
        let f = sqrt_floor(nsq as nat);
        assert(1 <= f && f <= 0x1_0000_0000) by {
            if f == 0 {
                assert((f + 1) * (f + 1) == 1) by (nonlinear_arith)
                    requires
                        f == 0,
                ;
            }
            if f > 0x1_0000_0000 {
                lemma_mul_inequality(0x1_0000_0000, f as int, 0x1_0000_0000);
                lemma_mul_inequality(0x1_0000_0000, f as int, f as int);
            }
        }
    }
    let d: i64 = d_floor as i64;
    assert(0 <= ax * s <= 3_000_000_000_000 && 0 <= ay * s <= 3_000_000_000_000) by (nonlinear_arith)
        requires
            0 <= ax <= 30_000_000,
            0 <= ay <= 30_000_000,
            0 <= s <= 100_000,
    ;
    proof {
        lemma_div_pos_is_pos(ax as int * s as int, d as int);
        lemma_div_pos_is_pos(ay as int * s as int, d as int);
        lemma_div_nonincreasing(ax as int * s as int, d as int);
        lemma_div_nonincreasing(ay as int * s as int, d as int);
    }
    let qx: i64 = ax * s / d;
    let qy: i64 = ay * s / d;
    let rx: i64 = if dx >= 0 {
        qx
    } else {
        -qx
    };
    let ry: i64 = if dy >= 0 {
        qy
    } else {
        -qy
    };
    (rx, ry)
}

/// Law: rescaling a direction of length at least one world unit to a target
/// speed `s` of at most ten world units gives a vector whose length is within
/// [s - 2, s + 10] fixed-point steps of `s` (here stated on the squares).
pub proof fn lemma_scaled_speed(dx: int, dy: int, s: int)
    requires
        1_000_000 <= vec_norm_sq(dx, dy),
        4 <= s <= 10_000,
    ensures
        (s - 2) * (s - 2) <= vec_norm_sq(scaled_x(dx, dy, s), scaled_y(dx, dy, s)),
        vec_norm_sq(scaled_x(dx, dy, s), scaled_y(dx, dy, s)) <= (s + 10) * (s + 10),
{
    let ax = if dx >= 0 {
        dx
    } else {
        -dx
    };
    let ay = if dy >= 0 {
        dy
    } else {
        -dy
    };
    let n2 = vec_norm_sq(dx, dy);
    assert(ax * ax + ay * ay == n2) by (nonlinear_arith)
        requires
            n2 == dx * dx + dy * dy,
            ax == dx || ax == -dx,
            ay == dy || ay == -dy,
    ;
    let d = sqrt_floor(n2 as nat) as int;
    lemma_sqrt_floor_bounds(n2 as nat);
    assert(d * d <= n2 < (d + 1) * (d + 1));
    assert(1000 <= d) by (nonlinear_arith)
        requires
            0 <= d,
            1_000_000 <= n2 < (d + 1) * (d + 1),
    ;
    let qx = (ax * s) / d;
    let qy = (ay * s) / d;
    lemma_fundamental_div_mod(ax * s, d);
    lemma_fundamental_div_mod(ay * s, d);
    lemma_mod_bound(ax * s, d);
    lemma_mod_bound(ay * s, d);
    lemma_div_pos_is_pos(ax * s, d);
    lemma_div_pos_is_pos(ay * s, d);
    assert(0 <= ax * s && 0 <= ay * s) by (nonlinear_arith)
        requires
            0 <= ax,
            0 <= ay,
            0 <= s,
    ;
    let ux = d * qx;
    let uy = d * qy;
    assert(ux <= ax * s < ux + d);
    assert(uy <= ay * s < uy + d);
    let n2q = qx * qx + qy * qy;

    // upper bound
    assert(n2q * (d * d) <= (s * s) * n2) by (nonlinear_arith)
        requires
            0 <= qx,
            0 <= qy,
            0 < d,
            d * qx <= ax * s,
            d * qy <= ay * s,
            n2q == qx * qx + qy * qy,
            n2 == ax * ax + ay * ay,
    ;
    assert((s * s) * n2 <= ((s + 10) * (s + 10)) * (d * d)) by (nonlinear_arith)
        requires
            n2 < (d + 1) * (d + 1),
            4 <= s <= 10_000,
            1000 <= d,
    ;
    assert(n2q <= (s + 10) * (s + 10)) by (nonlinear_arith)
        requires
            n2q * (d * d) <= ((s + 10) * (s + 10)) * (d * d),
            0 < d,
    ;

    // lower bound
    assert(ux * ux >= (ax * s) * (ax * s) - 2 * (ax * s) * d) by (nonlinear_arith)
        requires
            0 <= ux,
            ax * s - d <= ux,
            0 < d,
            0 <= ax * s,
    ;
    assert(uy * uy >= (ay * s) * (ay * s) - 2 * (ay * s) * d) by (nonlinear_arith)
        requires
            0 <= uy,
            ay * s - d <= uy,
            0 < d,
            0 <= ay * s,
    ;
    assert(2 * (ax + ay) <= 3 * d) by (nonlinear_arith)
        requires
            0 <= ax,
            0 <= ay,
            ax * ax + ay * ay == n2,
            n2 < (d + 1) * (d + 1),
            1000 <= d,
    ;
    assert(ux * ux + uy * uy == n2q * (d * d)) by (nonlinear_arith)
        requires
            ux == d * qx,
            uy == d * qy,
            n2q == qx * qx + qy * qy,
    ;
    assert((ax * s) * (ax * s) + (ay * s) * (ay * s) == (s * s) * n2) by (nonlinear_arith)
        requires
            n2 == ax * ax + ay * ay,
    ;
    assert(2 * (ax * s) * d + 2 * (ay * s) * d <= 3 * s * (d * d)) by (nonlinear_arith)
        requires
            2 * (ax + ay) <= 3 * d,
            0 <= s,
            0 < d,
    ;
    assert((s * s) * n2 >= (s * s) * (d * d)) by (nonlinear_arith)
        requires
            d * d <= n2,
    ;
    assert((s * s) * (d * d) - 3 * s * (d * d) >= ((s - 2) * (s - 2)) * (d * d)) by (nonlinear_arith)
        requires
            4 <= s,
    ;
    assert(n2q * (d * d) >= ((s - 2) * (s - 2)) * (d * d));
    assert(n2q >= (s - 2) * (s - 2)) by (nonlinear_arith)
        requires
            n2q * (d * d) >= ((s - 2) * (s - 2)) * (d * d),
            0 < d,
    ;

    assert(vec_norm_sq(scaled_x(dx, dy, s), scaled_y(dx, dy, s)) == n2q) by (nonlinear_arith)
        requires
            scaled_x(dx, dy, s) == qx || scaled_x(dx, dy, s) == -qx,
            scaled_y(dx, dy, s) == qy || scaled_y(dx, dy, s) == -qy,
            vec_norm_sq(scaled_x(dx, dy, s), scaled_y(dx, dy, s)) == scaled_x(dx, dy, s)
                * scaled_x(dx, dy, s) + scaled_y(dx, dy, s) * scaled_y(dx, dy, s),
            n2q == qx * qx + qy * qy,
    ;
}

/// A rescaled component keeps its direction, and is not rounded away to
/// zero as long as its share of the speed reaches the vector's length.
pub proof fn lemma_scale_component_sign(c: int, s: int, d: int)
    requires
        0 < d,
        d <= (if c >= 0 {
            c
        } else {
            -c
        }) * s,
    ensures
        c > 0 ==> 1 <= scale_component(c, s, d),
        c < 0 ==> scale_component(c, s, d) <= -1,
{
    let m = if c >= 0 {
        c
    } else {
        -c
    };
    lemma_fundamental_div_mod(m * s, d);
    lemma_mod_bound(m * s, d);
    let q = (m * s) / d;
    assert(1 <= q) by (nonlinear_arith)
        requires
            m * s == d * q + (m * s) % d,
            0 <= (m * s) % d < d,
            d <= m * s,
            0 < d,
    ;
}

/// Rescaling is monotone in the component: a smaller share of the
/// direction gives a smaller share of the speed.
pub proof fn lemma_scale_component_ordered(c1: int, c2: int, s: int, d: int)
    requires
        0 <= c1 <= c2,
        0 <= s,
        0 < d,
    ensures
        0 <= scale_component(c1, s, d) <= scale_component(c2, s, d),
{
    lemma_mul_inequality(c1, c2, s);
    lemma_div_is_ordered(c1 * s, c2 * s, d);
    lemma_div_pos_is_pos(c1 * s, d);
}

/// Each rescaled component is itself bounded by the target speed plus its
/// tolerance; in particular it stays far below the velocity cap.
pub proof fn lemma_scaled_component_bounds(dx: int, dy: int, s: int)
    requires
        1_000_000 <= vec_norm_sq(dx, dy),
        4 <= s <= 10_000,
    ensures
        -(s + 10) <= scaled_x(dx, dy, s) <= s + 10,
        -(s + 10) <= scaled_y(dx, dy, s) <= s + 10,
{
    lemma_scaled_speed(dx, dy, s);
    let x = scaled_x(dx, dy, s);
    let y = scaled_y(dx, dy, s);
    assert(-(s + 10) <= x <= s + 10 && -(s + 10) <= y <= s + 10) by (nonlinear_arith)
        requires
            x * x + y * y <= (s + 10) * (s + 10),
            0 <= s,
    ;
}

} // verus!
