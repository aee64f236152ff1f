//! Fixed-point scalar arithmetic.
//!
//! Every continuous quantity in the simulation is an `i64` holding
//! `FX_ONE` units per 1.0.  The helpers here are the only places where
//! fixed-point products, square roots and saturation are computed, each with
//! an exact contract over the mathematical integers.

use vstd::prelude::*;

verus! {

/// Fixed-point units per 1.0.
pub const FX_ONE: i64 = 1000;

/// Largest magnitude a ship position may reach; wrap-around and saturation
/// keep positions inside this bound.
pub const SHIP_POS_LIMIT: i64 = 999_000_000;

/// Largest magnitude any position (projectiles included) may reach.
pub const POS_LIMIT: i64 = 1_000_000_000;

/// Largest magnitude a velocity component may reach; velocity updates that
/// are not magnitude-clamped saturate here.
pub const VEL_LIMIT: i64 = 1_000_000_000;

/// Largest value a per-ship configuration scalar (acceleration, agility,
/// max velocity, radius, mass, muzzle speed, timers) may hold.
pub const CFG_LIMIT: i64 = 10_000_000;

/// Largest elapsed time of a single tick (100 seconds).
pub const ELAPSED_LIMIT: i64 = 100_000;

/// Truncated (round-toward-zero) division by the fixed-point scale, as the
/// hardware computes it on magnitudes.
pub open spec fn fx_mul(a: int, b: int) -> int {
    if a * b >= 0 {
        (a * b) / (FX_ONE as int)
    } else {
        -((-(a * b)) / (FX_ONE as int))
    }
}

/// `v` forced into the interval `[lo, hi]`.
pub open spec fn clamp_spec(v: int, lo: int, hi: int) -> int {
    if v < lo {
        lo
    } else if v > hi {
        hi
    } else {
        v
    }
}

/// Squared magnitude of a velocity vector.
pub open spec fn vel_sq(vx: int, vy: int) -> int {
    vx * vx + vy * vy
}

/// `r` is the integer square root of `s`, rounded down.
pub open spec fn is_sqrt_floor(r: int, s: int) -> bool {
    0 <= r && r * r <= s && s < (r + 1) * (r + 1)
}

/// The integer square root of `s`, rounded down (meaningful for `s >= 0`).
pub closed spec fn sqrt_floor(s: int) -> int {
    choose|r: int| is_sqrt_floor(r, s)
}

/// The integer square root of `s`, rounded up.
pub open spec fn sqrt_ceil(s: int) -> int {
    if sqrt_floor(s) * sqrt_floor(s) == s {
        sqrt_floor(s)
    } else {
        sqrt_floor(s) + 1
    }
}

/// A rounded-down square root is unique, so any witness pins `sqrt_floor`.
pub proof fn lemma_sqrt_floor_unique(r: int, s: int)
    requires
        is_sqrt_floor(r, s),
    ensures
        sqrt_floor(s) == r,
{
    assert(is_sqrt_floor(sqrt_floor(s), s)) by {
        assert(exists|q: int| is_sqrt_floor(q, s));
    }
    let f = sqrt_floor(s);
    assert(f == r) by (nonlinear_arith)
        requires
            is_sqrt_floor(f, s),
            is_sqrt_floor(r, s),
    ;
}

/// Fixed-point product `a * b / FX_ONE`, truncated toward zero.
pub fn mul_fx(a: i64, b: i64) -> (r: i64)
    requires
        -1_000_000_000 <= a <= 1_000_000_000,
        -1_000_000_000 <= b <= 1_000_000_000,
    ensures
        r == fx_mul(a as int, b as int),
{
    let neg: bool = (a < 0) != (b < 0);
    let aa: u64 = if a < 0 {
        (-a) as u64
    } else {
        a as u64
    };
    let bb: u64 = if b < 0 {
        (-b) as u64
    } else {
        b as u64
    };
    assert(aa * bb <= 1_000_000_000_000_000_000) by (nonlinear_arith)
        requires
            aa <= 1_000_000_000,
            bb <= 1_000_000_000,
    ;
    let p: u64 = aa * bb;
    let q: u64 = p / 1000;
    proof {
        if a >= 0 && b >= 0 {
            assert(p == a * b);
        } else if a < 0 && b < 0 {
            assert(aa * bb == a * b) by (nonlinear_arith)
                requires
                    aa == -a,
                    bb == -b,
            ;
        } else {
            assert(aa * bb == -(a * b)) by (nonlinear_arith)
                requires
                    (a < 0 && b >= 0 && aa == -a && bb == b) || (a >= 0 && b < 0 && aa == a && bb
                        == -b),
            ;
        }
    }
    if neg && q > 0 {
        assert(a * b < 0) by (nonlinear_arith)
            requires
                (a < 0) != (b < 0),
                aa * bb == -(a * b),
                aa * bb >= 1000 * (q as int) > 0,
        ;
        -(q as i64)
    } else {
        proof {
            if neg {
                assert(-(a * b) < 1000);
                if a * b > 0 {
                    assert((a < 0) == (b < 0)) by (nonlinear_arith)
                        requires
                            a * b > 0,
                    ;
                }
            } else {
                if a * b < 0 {
                    assert((a < 0) != (b < 0)) by (nonlinear_arith)
                        requires
                            a * b < 0,
                            a != 0,
                            b != 0,
                    ;
                    assert(a != 0 && b != 0) by (nonlinear_arith)
                        requires
                            a * b < 0,
                    ;
                }
            }
        }
        q as i64
    }
}

/// `v + d`, saturated into `[-lim, lim]`.
pub fn add_clamped(v: i64, d: i64, lim: i64) -> (r: i64)
    requires
        0 <= lim,
        -2_000_000_000_000 <= v <= 2_000_000_000_000,
        -2_000_000_000_000 <= d <= 2_000_000_000_000,
    ensures
        r == clamp_spec(v + d, -(lim as int), lim as int),
{
    let s: i64 = v + d;
    if s < -lim {
        -lim
    } else if s > lim {
        lim
    } else {
        s
    }
}

/// Integer square root, rounded down, by bisection.
pub fn isqrt(s: u64) -> (r: u64)
    ensures
        is_sqrt_floor(r as int, s as int),
        r == sqrt_floor(s as int),
        r < 0x1_0000_0000,
{
    let mut lo: u64 = 0;
    let mut hi: u64 = 0x1_0000_0000;
    assert((hi as int) * (hi as int) > s as int) by (nonlinear_arith)
        requires
            hi == 0x1_0000_0000u64,
            s <= u64::MAX,
    ;
    while lo + 1 < hi
        invariant
            0 <= lo < hi <= 0x1_0000_0000,
            (lo as int) * (lo as int) <= s as int,
            (hi as int) * (hi as int) > s as int,
        decreases hi - lo,
    {
        let mid: u64 = lo + (hi - lo) / 2;
        assert(mid * mid <= 0xFFFF_FFFF_0000_0000) by (nonlinear_arith)
            requires
                mid <= 0xFFFF_FFFFu64,
        ;
        if mid * mid <= s {
            lo = mid;
        } else {
            hi = mid;
        }
    }
    proof {
        lemma_sqrt_floor_unique(lo as int, s as int);
    }
    lo
}

/// A fixed-point product is bounded by the product of the operands' bounds,
/// scaled down.
pub proof fn lemma_fx_mul_bound(a: int, b: int, ca: int, cb: int, c: int)
    requires
        -ca <= a <= ca,
        -cb <= b <= cb,
        0 <= ca,
        0 <= cb,
        ca * cb <= c * 1000,
        0 <= c,
    ensures
        -c <= fx_mul(a, b) <= c,
{
    assert(-(c * 1000) <= a * b <= c * 1000) by (nonlinear_arith)
        requires
            -ca <= a <= ca,
            -cb <= b <= cb,
            0 <= ca,
            0 <= cb,
            ca * cb <= c * 1000,
    ;
    if a * b >= 0 {
        assert(fx_mul(a, b) == (a * b) / 1000);
        assert(0 <= (a * b) / 1000 <= c) by (nonlinear_arith)
            requires
                0 <= a * b <= c * 1000,
                0 <= c,
        ;
    } else {
        assert(fx_mul(a, b) == -((-(a * b)) / 1000));
        assert(0 <= (-(a * b)) / 1000 <= c) by (nonlinear_arith)
            requires
                0 < -(a * b) <= c * 1000,
                0 <= c,
        ;
    }
}

/// Scaling by a non-negative factor keeps a value's sign.
pub proof fn lemma_fx_mul_sign(a: int, b: int)
    requires
        0 <= b,
    ensures
        a >= 0 ==> fx_mul(a, b) >= 0,
        a <= 0 ==> fx_mul(a, b) <= 0,
        a == 0 ==> fx_mul(a, b) == 0,
{
    if a >= 0 {
        assert(a * b >= 0) by (nonlinear_arith)
            requires
                a >= 0,
                b >= 0,
        ;
    } else {
        assert(a * b <= 0) by (nonlinear_arith)
            requires
                a <= 0,
                b >= 0,
        ;
    }
}

/// One component of a velocity scaled down to the magnitude cap: the
/// magnitude `|v| * max / m` reapplied with the sign of `v`.
pub open spec fn scaled_component(v: int, max: int, m: int) -> int {
    if v >= 0 {
        (v * max) / m
    } else {
        -(((-v) * max) / m)
    }
}

proof fn lemma_scaled_within_cap(ax: int, ay: int, mx: int, m: int, qx: int, qy: int)
    by (nonlinear_arith)
    requires
        0 <= ax,
        0 <= ay,
        0 <= mx,
        1 <= m,
        0 <= qx,
        0 <= qy,
        qx * m <= ax * mx,
        qy * m <= ay * mx,
        ax * ax + ay * ay <= m * m,
    ensures
        qx * qx + qy * qy <= mx * mx,
{
    assert((qx * m) * (qx * m) <= (ax * mx) * (ax * mx));
    assert((qy * m) * (qy * m) <= (ay * mx) * (ay * mx));
    assert((qx * qx + qy * qy) * (m * m) <= (ax * ax + ay * ay) * (mx * mx));
    assert((qx * qx + qy * qy) * (m * m) <= (m * m) * (mx * mx));
}

/// The velocity vector with its magnitude clamped to `max`: unchanged when
/// already within the cap, otherwise scaled by `max` over the rounded-up
/// magnitude.
pub open spec fn clamp_vel_spec(vx: int, vy: int, max: int) -> (int, int) {
    if vel_sq(vx, vy) <= max * max {
        (vx, vy)
    } else {
        let m = sqrt_ceil(vel_sq(vx, vy));
        (scaled_component(vx, max, m), scaled_component(vy, max, m))
    }
}

/// Clamp a velocity vector's magnitude to `max`, preserving its direction:
/// left alone when already within the cap, otherwise each component is scaled
/// by `max` over the rounded-up magnitude.  The result always satisfies
/// `|result|^2 <= max^2`.
pub fn clamp_velocity(vx: i64, vy: i64, max: i64) -> (r: (i64, i64))
    requires
        -2_000_000_000 <= vx <= 2_000_000_000,
        -2_000_000_000 <= vy <= 2_000_000_000,
        0 <= max <= CFG_LIMIT,
    ensures
        (r.0 as int, r.1 as int) == clamp_vel_spec(vx as int, vy as int, max as int),
        vel_sq(r.0 as int, r.1 as int) <= (max as int) * (max as int),
        -max <= r.0 <= max,
        -max <= r.1 <= max,
        vel_sq(vx as int, vy as int) <= (max as int) * (max as int) ==> r == (vx, vy),
        vel_sq(vx as int, vy as int) > (max as int) * (max as int) ==> {
            let m = sqrt_ceil(vel_sq(vx as int, vy as int));
            r.0 == scaled_component(vx as int, max as int, m) && r.1 == scaled_component(
                vy as int,
                max as int,
                m,
            )
        },
{
    let ax: u64 = if vx < 0 {
        (-vx) as u64
    } else {
        vx as u64
    };
    let ay: u64 = if vy < 0 {
        (-vy) as u64
    } else {
        vy as u64
    };
    assert(ax * ax + ay * ay == vel_sq(vx as int, vy as int) && ax * ax + ay * ay
        <= 8_000_000_000_000_000_000) by (nonlinear_arith)
        requires
            ax <= 2_000_000_000,
            ay <= 2_000_000_000,
            ax == (if vx < 0 {
                -vx
            } else {
                vx as int
            }),
            ay == (if vy < 0 {
                -vy
            } else {
                vy as int
            }),
    ;
    let s: u64 = ax * ax + ay * ay;
    assert((max as u64) * (max as u64) <= 100_000_000_000_000) by (nonlinear_arith)
        requires
            max <= 10_000_000,
            0 <= max,
    ;
    let mxm: u64 = (max as u64) * (max as u64);
    if s <= mxm {
        assert(ax <= max as int && ay <= max as int) by (nonlinear_arith)
            requires
                0 <= ax,
                0 <= ay,
                0 <= max,
                ax * ax + ay * ay <= (max as int) * (max as int),
        ;
        (vx, vy)
    } else {
        let f: u64 = isqrt(s);
        let m: u64 = if f * f == s {
            f
        } else {
            f + 1
        };
        proof {
            assert(m >= 1 && (m as int) * (m as int) >= s as int && m == sqrt_ceil(s as int))
                by (nonlinear_arith)
                requires
                    is_sqrt_floor(f as int, s as int),
                    f == sqrt_floor(s as int),
                    m == (if (f as int) * (f as int) == s as int {
                        f as int
                    } else {
                        f as int + 1
                    }),
                    m == sqrt_ceil(s as int) || !(m == (if (f as int) * (f as int) == s as int {
                        f as int
                    } else {
                        f as int + 1
                    })),
                    s >= 1,
            ;
        }
        assert(ax * (max as u64) <= 2_000_000_000 * 10_000_000 && ay * (max as u64) <= 2_000_000_000
            * 10_000_000) by (nonlinear_arith)
            requires
                ax <= 2_000_000_000,
                ay <= 2_000_000_000,
                max <= 10_000_000,
                0 <= max,
        ;
        let qx: u64 = ax * (max as u64) / m;
        let qy: u64 = ay * (max as u64) / m;
        proof {
            assert(ax * ax <= s as int && ay * ay <= s as int) by (nonlinear_arith)
                requires
                    s == ax * ax + ay * ay,
            ;
            assert((ax as int) <= m as int && (ay as int) <= m as int) by (nonlinear_arith)
                requires
                    ax * ax <= (m as int) * (m as int),
                    ay * ay <= (m as int) * (m as int),
                    0 <= ax,
                    0 <= ay,
                    1 <= m,
            ;
            assert(qx <= max as int && qy <= max as int) by (nonlinear_arith)
                requires
                    qx == (ax * (max as u64)) as int / (m as int),
                    qy == (ay * (max as u64)) as int / (m as int),
                    ax <= m,
                    ay <= m,
                    1 <= m,
                    0 <= max,
            ;
            assert(qx * (m as int) <= ax * (max as int) && qy * (m as int) <= ay * (max as int))
                by (nonlinear_arith)
                requires
                    qx == (ax * (max as u64)) as int / (m as int),
                    qy == (ay * (max as u64)) as int / (m as int),
                    1 <= m,
                    0 <= ax,
                    0 <= ay,
                    0 <= max,
            ;
            lemma_scaled_within_cap(
                ax as int,
                ay as int,
                max as int,
                m as int,
                qx as int,
                qy as int,
            );
        }
        let rx: i64 = if vx < 0 {
            -(qx as i64)
        } else {
            qx as i64
        };
        let ry: i64 = if vy < 0 {
            -(qy as i64)
        } else {
            qy as i64
        };
        assert(vel_sq(rx as int, ry as int) == qx * qx + qy * qy) by (nonlinear_arith)
            requires
                rx == qx || rx == -(qx as int),
                ry == qy || ry == -(qy as int),
        ;
        (rx, ry)
    }
}

} // verus!
