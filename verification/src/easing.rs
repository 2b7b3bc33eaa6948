//! Easing: the weight that a curve gives to a share of time, and the point
//! that lies at that weight between two others.

use vstd::prelude::*;
use crate::fixed::{lemma_product_unit, product, saturate, scale, clamp, clamped, ONE};
use crate::vector::Vec3;

verus! {

/// The shape of a motion between its start and its end.
#[derive(Clone, Copy, Debug, PartialEq, Eq, Structural)]
pub enum EaseFunction {
    /// `f(t) = t`
    Linear,
    /// `f(t) = t²`
    QuadraticIn,
    /// `f(t) = 1 - (1 - t)²`
    QuadraticOut,
    /// `f(t) = 2t²` before the middle, `1 - (2 - 2t)² / 2` after it
    QuadraticInOut,
    /// `f(t) = t³`
    CubicIn,
    /// `f(t) = 1 - (1 - t)³`
    CubicOut,
}

/// The weight that `kind` gives to the share `t` of the time, for `t` from 0
/// to 1.
pub open spec fn weight(kind: EaseFunction, t: int) -> int {
    match kind {
        EaseFunction::Linear => t,
        EaseFunction::QuadraticIn => product(t, t),
        EaseFunction::QuadraticOut => ONE - product(ONE - t, ONE - t),
        EaseFunction::QuadraticInOut => if 2 * t < ONE {
            2 * product(t, t)
        } else {
            ONE - product(2 * ONE - 2 * t, 2 * ONE - 2 * t) / 2
        },
        EaseFunction::CubicIn => product(product(t, t), t),
        EaseFunction::CubicOut => ONE - product(product(ONE - t, ONE - t), ONE - t),
    }
}

/// The scalar that lies at weight `w` on the way from `a` to `b`, rounded
/// down to a millionth.
pub open spec fn lerp(a: int, b: int, w: int) -> int {
    a + ((b - a) * w) / (ONE as int)
}

/// The point that lies at weight `w` on the way from `start` to `end`.
pub open spec fn lerp_point(start: Vec3, end: Vec3, w: int) -> Vec3 {
    Vec3 {
        x: saturate(lerp(start.x as int, end.x as int, w)) as i64,
        y: saturate(lerp(start.y as int, end.y as int, w)) as i64,
        z: saturate(lerp(start.z as int, end.z as int, w)) as i64,
    }
}

/// The point of the curve `kind` from `start` to `end` at the share `t` of
/// its time; a share outside 0 to 1 counts as the nearer end.
pub open spec fn sampled(start: Vec3, end: Vec3, kind: EaseFunction, t: int) -> Vec3 {
    lerp_point(start, end, weight(kind, clamped(t, 0, ONE as int)))
}

/// Every curve starts at weight 0, ends at weight 1 and stays between them.
pub proof fn lemma_weight_range(kind: EaseFunction, t: int)
    requires
        0 <= t <= ONE,
    ensures
        0 <= weight(kind, t) <= ONE,
        weight(kind, 0) == 0,
        weight(kind, ONE as int) == ONE,
{
    let one = ONE as int;
    lemma_product_unit(0, 0);
    lemma_product_unit(one, one);
    assert(product(one, one) == one);
    assert(product(0, 0) == 0);
    lemma_product_unit(t, t);
    lemma_product_unit(product(t, t), t);
    lemma_product_unit(one - t, one - t);
    lemma_product_unit(product(one - t, one - t), one - t);
    if 2 * t < one {
        let q = product(t, t);
        assert(q * 2 <= 1_000_000) by (nonlinear_arith)
            requires
                0 <= t,
                2 * t < 1_000_000,
                q == (t * t) / 1_000_000,
        ;
    } else {
        lemma_product_unit(2 * one - 2 * t, 2 * one - 2 * t);
    }
}

/// At weight 0 the way from `a` to `b` is at `a`, at weight 1 at `b`, and in
/// between it never leaves the span of the two; the rounding loses less than
/// a millionth.
pub proof fn lemma_lerp_between(a: int, b: int, w: int)
    requires
        0 <= w <= ONE,
    ensures
        lerp(a, b, 0) == a,
        lerp(a, b, ONE as int) == b,
        a <= b ==> a <= lerp(a, b, w) <= b,
        b <= a ==> b <= lerp(a, b, w) <= a,
        ONE * (lerp(a, b, w) - a) <= (b - a) * w < ONE * (lerp(a, b, w) - a) + ONE,
{
    let d = b - a;
    assert((d * 0) / 1_000_000 == 0) by (nonlinear_arith);
    assert((d * 1_000_000) / 1_000_000 == d) by (nonlinear_arith);
    let q = (d * w) / 1_000_000;
    assert(1_000_000 * q <= d * w < 1_000_000 * q + 1_000_000) by (nonlinear_arith)
        requires
            q == (d * w) / 1_000_000,
    ;
    assert(d >= 0 ==> 0 <= q <= d) by (nonlinear_arith)
        requires
            0 <= w <= 1_000_000,
            1_000_000 * q <= d * w < 1_000_000 * q + 1_000_000,
    ;
    assert(d <= 0 ==> d <= q <= 0) by (nonlinear_arith)
        requires
            0 <= w <= 1_000_000,
            1_000_000 * q <= d * w < 1_000_000 * q + 1_000_000,
    ;
}

/// A curve between two points starts at the first, ends at the second, and
/// each coordinate stays within the span of the two.
pub proof fn lemma_sampled_ends(start: Vec3, end: Vec3, kind: EaseFunction, t: int)
    ensures
        t <= 0 ==> sampled(start, end, kind, t) == start,
        t >= ONE ==> sampled(start, end, kind, t) == end,
        sampled(start, end, kind, t).x == lerp(
            start.x as int,
            end.x as int,
            weight(kind, clamped(t, 0, ONE as int)),
        ),
        sampled(start, end, kind, t).y == lerp(
            start.y as int,
            end.y as int,
            weight(kind, clamped(t, 0, ONE as int)),
        ),
        sampled(start, end, kind, t).z == lerp(
            start.z as int,
            end.z as int,
            weight(kind, clamped(t, 0, ONE as int)),
        ),
{
    let c = clamped(t, 0, ONE as int);
    lemma_weight_range(kind, c);
    let w = weight(kind, c);
    lemma_lerp_between(start.x as int, end.x as int, w);
    lemma_lerp_between(start.y as int, end.y as int, w);
    lemma_lerp_between(start.z as int, end.z as int, w);
}

/// A linear curve is the straight line: at the share `t` of its time each
/// coordinate is `start + (end - start) * t`, rounded down by less than a
/// millionth.
pub proof fn lemma_linear_sample(start: Vec3, end: Vec3, t: int)
    requires
        0 <= t <= ONE,
    ensures
        ({
            let p = sampled(start, end, EaseFunction::Linear, t);
            &&& p.x == start.x + ((end.x - start.x) * t) / (ONE as int)
            &&& p.y == start.y + ((end.y - start.y) * t) / (ONE as int)
            &&& p.z == start.z + ((end.z - start.z) * t) / (ONE as int)
            &&& ONE * (p.x - start.x) <= (end.x - start.x) * t < ONE * (p.x - start.x) + ONE
            &&& ONE * (p.y - start.y) <= (end.y - start.y) * t < ONE * (p.y - start.y) + ONE
            &&& ONE * (p.z - start.z) <= (end.z - start.z) * t < ONE * (p.z - start.z) + ONE
        }),
{
    lemma_sampled_ends(start, end, EaseFunction::Linear, t);
    lemma_lerp_between(start.x as int, end.x as int, t);
    lemma_lerp_between(start.y as int, end.y as int, t);
    lemma_lerp_between(start.z as int, end.z as int, t);
}

/// The weight that `kind` gives to the share `t` of the time; a share outside
/// 0 to 1 counts as the nearer end.
pub fn ease(kind: EaseFunction, t: i64) -> (w: i64)
    ensures
        w == weight(kind, clamped(t as int, 0, ONE as int)),
        0 <= w <= ONE,
{
    let t: i64 = clamp(t, 0, ONE);
    proof {
        lemma_weight_range(kind, t as int);
        lemma_product_unit(t as int, t as int);
        lemma_product_unit(product(t as int, t as int), t as int);
        lemma_product_unit(ONE - t, ONE - t);
        lemma_product_unit(product(ONE - t, ONE - t), ONE - t);
    }
    match kind {
        EaseFunction::Linear => t,
        EaseFunction::QuadraticIn => scale(t, t),
        EaseFunction::QuadraticOut => ONE - scale(ONE - t, ONE - t),
        EaseFunction::QuadraticInOut => {
            if 2 * t < ONE {
                2 * scale(t, t)
            } else {
                proof {
                    lemma_product_unit(2 * ONE - 2 * t, 2 * ONE - 2 * t);
                }
                let u: i64 = 2 * ONE - 2 * t;
                ONE - scale(u, u) / 2
            }
        },
        EaseFunction::CubicIn => scale(scale(t, t), t),
        EaseFunction::CubicOut => {
            let u: i64 = ONE - t;
            ONE - scale(scale(u, u), u)
        },
    }
}

/// The scalar at weight `w` on the way from `a` to `b`, held to the `i64`
/// range.
pub fn interpolate(a: i64, b: i64, w: i64) -> (r: i64)
    ensures
        r == saturate(lerp(a as int, b as int, w as int)),
{
    let d: i128 = (b as i128) - (a as i128);
    assert(-0x7fff_ffff_ffff_ffff_8000_0000_0000_0000 <= d * w
        <= 0x7fff_ffff_ffff_ffff_8000_0000_0000_0000) by (nonlinear_arith)
        requires
            -0xffff_ffff_ffff_ffff <= d <= 0xffff_ffff_ffff_ffff,
            -0x8000_0000_0000_0000 <= w <= 0x7fff_ffff_ffff_ffff,
    ;
    let wide: i128 = d * (w as i128);
    let q: i128 = match wide.checked_div_euclid(ONE as i128) {
        Some(q) => q,
        None => 0,
    };
    let sum: i128 = (a as i128) + q;
    if sum > i64::MAX as i128 {
        i64::MAX
    } else if sum < i64::MIN as i128 {
        i64::MIN
    } else {
        sum as i64
    }
}

/// The point of the curve `kind` from `start` to `end` at the share `t` of
/// its time.
pub fn sample(start: Vec3, end: Vec3, kind: EaseFunction, t: i64) -> (p: Vec3)
    ensures
        p == sampled(start, end, kind, t as int),
{
    let w: i64 = ease(kind, t);
    Vec3 {
        x: interpolate(start.x, end.x, w),
        y: interpolate(start.y, end.y, w),
        z: interpolate(start.z, end.z, w),
    }
}

} // verus!
