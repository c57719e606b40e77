//! Fixed-point scalars and vectors.
//!
//! Every physical quantity of the simulation (positions, velocities, angles,
//! tuning constants) is an `i64` counting micro-units: one whole unit is
//! `SCALE`. All values live in the closed interval `[-FX_MAX, FX_MAX]`, and
//! every operation saturates at those bounds, so the arithmetic is total and
//! needs no side conditions. Products are truncated toward zero.

use vstd::prelude::*;

verus! {

/// One whole unit, in micro-units.
pub const SCALE: i64 = 1_000_000;

/// Largest magnitude a fixed-point value can take; operations clamp to it.
pub const FX_MAX: i64 = 1_000_000_000_000_000;

/// Clamp a mathematical integer into the fixed-point domain.
pub open spec fn sat(x: int) -> int {
    if x > FX_MAX as int {
        FX_MAX as int
    } else if x < -(FX_MAX as int) {
        -(FX_MAX as int)
    } else {
        x
    }
}

pub open spec fn abs_val(x: int) -> int {
    if x < 0 {
        -x
    } else {
        x
    }
}

/// Saturating sum of two fixed-point values.
pub open spec fn add_val(a: int, b: int) -> int {
    sat(a + b)
}

/// Saturating difference of two fixed-point values.
pub open spec fn sub_val(a: int, b: int) -> int {
    sat(a - b)
}

/// Saturating negation of a fixed-point value.
pub open spec fn neg_val(a: int) -> int {
    sat(-a)
}

/// Exact product of two fixed-point values, rounded toward zero,
/// before saturation.
pub open spec fn mul_wide(a: int, b: int) -> int {
    let m = (abs_val(a) * abs_val(b)) / (SCALE as int);
    if (a < 0) != (b < 0) {
        -m
    } else {
        m
    }
}

/// Saturating fixed-point product.
pub open spec fn mul_val(a: int, b: int) -> int {
    sat(mul_wide(a, b))
}

pub fn fx_add(a: i64, b: i64) -> (r: i64)
    ensures
        r as int == add_val(a as int, b as int),
{
    let s: i128 = a as i128 + b as i128;
    if s > FX_MAX as i128 {
        FX_MAX
    } else if s < -(FX_MAX as i128) {
        -FX_MAX
    } else {
        s as i64
    }
}

pub fn fx_sub(a: i64, b: i64) -> (r: i64)
    ensures
        r as int == sub_val(a as int, b as int),
{
    let s: i128 = a as i128 - b as i128;
    if s > FX_MAX as i128 {
        FX_MAX
    } else if s < -(FX_MAX as i128) {
        -FX_MAX
    } else {
        s as i64
    }
}

pub fn fx_neg(a: i64) -> (r: i64)
    ensures
        r as int == neg_val(a as int),
{
    let s: i128 = -(a as i128);
    if s > FX_MAX as i128 {
        FX_MAX
    } else if s < -(FX_MAX as i128) {
        -FX_MAX
    } else {
        s as i64
    }
}

fn abs_u128(a: i64) -> (r: u128)
    ensures
        r as int == abs_val(a as int),
{
    if a < 0 {
        (-(a as i128)) as u128
    } else {
        a as u128
    }
}

pub fn fx_mul(a: i64, b: i64) -> (r: i64)
    ensures
        r as int == mul_val(a as int, b as int),
{
    let neg = (a < 0) != (b < 0);
    let ma: u128 = abs_u128(a);
    let mb: u128 = abs_u128(b);
    proof {
        assert(ma <= 0x8000_0000_0000_0000 && mb <= 0x8000_0000_0000_0000);
        assert(ma * mb <= 0x8000_0000_0000_0000 * 0x8000_0000_0000_0000) by (nonlinear_arith)
            requires
                ma <= 0x8000_0000_0000_0000 && mb <= 0x8000_0000_0000_0000,
        ;
    }
    let p: u128 = ma * mb;
    let q: u128 = p / (SCALE as u128);
    let m: i64 = if q > FX_MAX as u128 {
        FX_MAX
    } else {
        q as i64
    };
    if neg {
        -m
    } else {
        m
    }
}

/// A three-component fixed-point vector, Y up.
#[derive(Clone, Copy, PartialEq, Eq, Structural, Debug)]
pub struct V3 {
    pub x: i64,
    pub y: i64,
    pub z: i64,
}

/// Saturating squared length of a vector, accumulated left to right.
pub open spec fn len_sq_val(x: int, y: int, z: int) -> int {
    add_val(add_val(mul_val(x, x), mul_val(y, y)), mul_val(z, z))
}

pub fn v3_zero() -> (r: V3)
    ensures
        r.x == 0 && r.y == 0 && r.z == 0,
{
    V3 { x: 0, y: 0, z: 0 }
}

pub fn v3_add(a: V3, b: V3) -> (r: V3)
    ensures
        r.x as int == add_val(a.x as int, b.x as int),
        r.y as int == add_val(a.y as int, b.y as int),
        r.z as int == add_val(a.z as int, b.z as int),
{
    V3 { x: fx_add(a.x, b.x), y: fx_add(a.y, b.y), z: fx_add(a.z, b.z) }
}

pub fn v3_sub(a: V3, b: V3) -> (r: V3)
    ensures
        r.x as int == sub_val(a.x as int, b.x as int),
        r.y as int == sub_val(a.y as int, b.y as int),
        r.z as int == sub_val(a.z as int, b.z as int),
{
    V3 { x: fx_sub(a.x, b.x), y: fx_sub(a.y, b.y), z: fx_sub(a.z, b.z) }
}

pub fn v3_scale(a: V3, k: i64) -> (r: V3)
    ensures
        r.x as int == mul_val(a.x as int, k as int),
        r.y as int == mul_val(a.y as int, k as int),
        r.z as int == mul_val(a.z as int, k as int),
{
    V3 { x: fx_mul(a.x, k), y: fx_mul(a.y, k), z: fx_mul(a.z, k) }
}

pub fn v3_len_sq(a: V3) -> (r: i64)
    ensures
        r as int == len_sq_val(a.x as int, a.y as int, a.z as int),
{
    fx_add(fx_add(fx_mul(a.x, a.x), fx_mul(a.y, a.y)), fx_mul(a.z, a.z))
}

} // verus!
