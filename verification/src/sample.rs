//! Fixed-point model of audio amplitudes and gains.
//!
//! An amplitude is an `i32` in fixed point: `SAMPLE_UNIT` stands for full
//! scale (the edge of the representable audio range), `-SAMPLE_UNIT` for the
//! opposite edge.  A gain or a master volume is a number of thousandths:
//! `GAIN_UNIT` thousandths are unity gain.  Scaling by a gain multiplies by
//! the gain and divides by `GAIN_UNIT`, truncating toward zero.

use vstd::prelude::*;

verus! {

/// Full-scale amplitude: the fixed-point value that stands for 1.0.
pub const SAMPLE_UNIT: i32 = 1_000_000;

/// Unity gain, in thousandths.
pub const GAIN_UNIT: u32 = 1000;

/// Clamp `v` into `[lo, hi]`.
pub open spec fn clamp_int(v: int, lo: int, hi: int) -> int {
    if v < lo {
        lo
    } else if v > hi {
        hi
    } else {
        v
    }
}

/// Clamp a raw gain request into the valid gain range `[0, GAIN_UNIT]`.
pub open spec fn clamp_gain(v: int) -> int {
    clamp_int(v, 0, GAIN_UNIT as int)
}

/// Division by `GAIN_UNIT` truncating toward zero, as machine signed
/// division does.
pub open spec fn div_gain_trunc(p: int) -> int {
    if p >= 0 {
        p / (GAIN_UNIT as int)
    } else {
        -((-p) / (GAIN_UNIT as int))
    }
}

/// Scale an amplitude by a gain in thousandths.
pub open spec fn scale_by_gain(s: int, g: int) -> int {
    div_gain_trunc(s * g)
}

/// Saturate a mathematical integer into the `i32` range.
pub open spec fn sat_i32(v: int) -> int {
    clamp_int(v, i32::MIN as int, i32::MAX as int)
}

/// Add a gain-scaled amplitude onto an existing one, saturating at the
/// `i32` range.
pub open spec fn mix_add(o: int, s: int, g: int) -> int {
    sat_i32(o + scale_by_gain(s, g))
}

/// Scale an amplitude by a master volume, saturating at the `i32` range.
pub open spec fn apply_volume(s: int, g: int) -> int {
    sat_i32(scale_by_gain(s, g))
}

/// Clamp an amplitude to the audible range `[-SAMPLE_UNIT, SAMPLE_UNIT]`.
pub open spec fn clamp_unit(v: int) -> int {
    clamp_int(v, -(SAMPLE_UNIT as int), SAMPLE_UNIT as int)
}

/// Clamp a raw gain request into `[0, GAIN_UNIT]`.
pub fn clamp_gain_exec(v: i64) -> (r: u32)
    ensures
        r as int == clamp_gain(v as int),
{
    if v < 0 {
        0
    } else if v > GAIN_UNIT as i64 {
        GAIN_UNIT
    } else {
        v as u32
    }
}

/// Scale `s` by the gain `g` (thousandths), truncating toward zero.
fn scale_by_gain_i64(s: i32, g: u32) -> (r: i64)
    requires
        g <= GAIN_UNIT,
    ensures
        r as int == scale_by_gain(s as int, g as int),
        -2_200_000_000_000 <= r <= 2_200_000_000_000,
{
    proof {
        assert((s as int) * (g as int) <= 2_200_000_000_000
            && (s as int) * (g as int) >= -2_200_000_000_000) by (nonlinear_arith)
            requires
                -2_147_483_648 <= s as int <= 2_147_483_647,
                0 <= g as int <= 1000,
        ;
    }
    let p: i64 = (s as i64) * (g as i64);
    if p >= 0 {
        (((p as u64) / (GAIN_UNIT as u64)) as i64)
    } else {
        -((((-p) as u64) / (GAIN_UNIT as u64)) as i64)
    }
}

/// Add `s` scaled by `g` onto `o`, saturating at the `i32` range.
pub fn mix_add_exec(o: i32, s: i32, g: u32) -> (r: i32)
    requires
        g <= GAIN_UNIT,
    ensures
        r as int == mix_add(o as int, s as int, g as int),
{
    let scaled: i64 = scale_by_gain_i64(s, g);
    let sum: i64 = (o as i64) + scaled;
    if sum < i32::MIN as i64 {
        i32::MIN
    } else if sum > i32::MAX as i64 {
        i32::MAX
    } else {
        sum as i32
    }
}

/// Scale `s` by the master volume `g`, saturating at the `i32` range.
pub fn apply_volume_exec(s: i32, g: u32) -> (r: i32)
    requires
        g <= GAIN_UNIT,
    ensures
        r as int == apply_volume(s as int, g as int),
{
    let scaled: i64 = scale_by_gain_i64(s, g);
    if scaled < i32::MIN as i64 {
        i32::MIN
    } else if scaled > i32::MAX as i64 {
        i32::MAX
    } else {
        scaled as i32
    }
}

/// Clamp `v` to the audible range `[-SAMPLE_UNIT, SAMPLE_UNIT]`.
pub fn clamp_unit_exec(v: i32) -> (r: i32)
    ensures
        r as int == clamp_unit(v as int),
{
    if v < -SAMPLE_UNIT {
        -SAMPLE_UNIT
    } else if v > SAMPLE_UNIT {
        SAMPLE_UNIT
    } else {
        v
    }
}

} // verus!
