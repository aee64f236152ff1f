//! Fixed-point angles and headings.
//!
//! Rotations are fixed-point radians in `[0, TAU_FX)`.  The sine is
//! Bhaskara I's rational approximation evaluated exactly in integer
//! arithmetic; it is the library's definition of the heading of a rotation,
//! and is exact at the axis-aligned angles (`sin 0 == 0`,
//! `sin HALF_PI_FX == FX_ONE`).

use vstd::prelude::*;
use vstd::arithmetic::div_mod::lemma_fundamental_div_mod;
use vstd::arithmetic::div_mod::lemma_mod_multiples_vanish;
use vstd::arithmetic::div_mod::lemma_small_mod;
use crate::fx::FX_ONE;

verus! {

/// One half turn in fixed-point radians.
pub const PI_FX: i64 = 3142;

/// One quarter turn in fixed-point radians.
pub const HALF_PI_FX: i64 = 1571;

/// One full turn in fixed-point radians.
pub const TAU_FX: i64 = 6284;

/// An angle reduced to `[0, TAU_FX)`: the Euclidean remainder.
pub open spec fn norm_spec(a: int) -> int {
    a % (TAU_FX as int)
}

/// Bhaskara's rational sine on a half turn, scaled by `FX_ONE`.
pub open spec fn sin_half_spec(x: int) -> int {
    (16 * (x * (PI_FX - x)) * (FX_ONE as int)) / (5 * (PI_FX as int) * (PI_FX as int) - 4 * (x * (
    PI_FX - x)))
}

/// The fixed-point sine of any angle: the half-turn formula, negated on the
/// second half of the turn.
pub open spec fn sin_spec(a: int) -> int {
    let x = norm_spec(a);
    if x < PI_FX {
        sin_half_spec(x)
    } else {
        -sin_half_spec(x - PI_FX)
    }
}

/// The fixed-point cosine: the sine a quarter turn ahead.
pub open spec fn cos_spec(a: int) -> int {
    sin_spec(a + HALF_PI_FX)
}

/// The x component of the forward direction of a rotation (the local +y axis
/// rotated into world space).
pub open spec fn heading_x_spec(rot: int) -> int {
    -sin_spec(rot)
}

/// The y component of the forward direction of a rotation.
pub open spec fn heading_y_spec(rot: int) -> int {
    cos_spec(rot)
}

/// Reduce an angle to `[0, TAU_FX)`.
pub fn norm_angle(a: i64) -> (r: i64)
    requires
        -2_000_000_000_000 <= a <= 2_000_000_000_000,
    ensures
        r == norm_spec(a as int),
        0 <= r < TAU_FX,
{
    if a >= 0 {
        let r: u64 = (a as u64) % 6284;
        r as i64
    } else {
        let n: u64 = (-a) as u64;
        let m: u64 = n % 6284;
        proof {
            let q = (n as int) / 6284;
            lemma_fundamental_div_mod(n as int, 6284);
            assert(a as int == 6284 * (-q - 1) + (6284 - m));
            lemma_mod_multiples_vanish(-q - 1, 6284 - (m as int), 6284);
            if m == 0 {
                lemma_mod_multiples_vanish(0, 0, 6284);
                lemma_mod_multiples_vanish(1, 0, 6284);
                lemma_small_mod(0, 6284);
            } else {
                lemma_small_mod((6284 - m) as nat, 6284);
            }
        }
        if m == 0 {
            0
        } else {
            (6284 - m) as i64
        }
    }
}

/// Bhaskara's sine on `[0, PI_FX]`, evaluated exactly.
fn sin_half(x: i64) -> (r: i64)
    requires
        0 <= x <= PI_FX,
    ensures
        r == sin_half_spec(x as int),
        0 <= r <= FX_ONE,
{
    assert(0 <= (x as int) * (PI_FX - x as int) <= 2_468_041) by (nonlinear_arith)
        requires
            0 <= x <= 3142,
    ;
    let u: u64 = (x as u64) * ((PI_FX - x) as u64);
    assert(u == (x as int) * (PI_FX - x as int)) by (nonlinear_arith)
        requires
            0 <= x <= 3142,
            u == (x as u64) as int * ((3142 - x) as u64) as int,
    ;
    let num: u64 = 16 * u * 1000;
    let den: u64 = 49_360_820 - 4 * u;
    let q: u64 = num / den;
    assert(q <= 1000) by (nonlinear_arith)
        requires
            q == num / den,
            num == 16 * u * 1000,
            den == 49_360_820 - 4 * u,
            u <= 2_468_041,
    ;
    assert(q == sin_half_spec(x as int));
    q as i64
}

/// The fixed-point sine of an angle, in `[-FX_ONE, FX_ONE]`.
pub fn sin_fx(a: i64) -> (r: i64)
    requires
        -2_000_000_000_000 <= a <= 2_000_000_000_000,
    ensures
        r == sin_spec(a as int),
        -FX_ONE <= r <= FX_ONE,
{
    let x = norm_angle(a);
    if x < PI_FX {
        sin_half(x)
    } else {
        -sin_half(x - PI_FX)
    }
}

/// The fixed-point cosine of an angle, in `[-FX_ONE, FX_ONE]`.
pub fn cos_fx(a: i64) -> (r: i64)
    requires
        -1_000_000_000_000 <= a <= 1_000_000_000_000,
    ensures
        r == cos_spec(a as int),
        -FX_ONE <= r <= FX_ONE,
{
    sin_fx(a + HALF_PI_FX)
}

/// The forward direction of a rotation as a fixed-point vector; each
/// component lies in `[-FX_ONE, FX_ONE]`.
pub fn heading(rot: i64) -> (h: (i64, i64))
    requires
        -1_000_000_000_000 <= rot <= 1_000_000_000_000,
    ensures
        h.0 == heading_x_spec(rot as int),
        h.1 == heading_y_spec(rot as int),
        -FX_ONE <= h.0 <= FX_ONE,
        -FX_ONE <= h.1 <= FX_ONE,
{
    let hx = -sin_fx(rot);
    let hy = cos_fx(rot);
    (hx, hy)
}

} // verus!
