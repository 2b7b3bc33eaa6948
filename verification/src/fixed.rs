//! Fixed-point scalars: an `i64` that counts millionths.

use vstd::prelude::*;

verus! {

/// The scalar 1.0.
pub const ONE: i64 = 1_000_000;

/// `v`, held to the range of an `i64`.
pub open spec fn saturate(v: int) -> int {
    if v < i64::MIN {
        i64::MIN as int
    } else if v > i64::MAX {
        i64::MAX as int
    } else {
        v
    }
}

/// `v`, held to the range from `lo` to `hi`.
pub open spec fn clamped(v: int, lo: int, hi: int) -> int {
    if v < lo {
        lo
    } else if v > hi {
        hi
    } else {
        v
    }
}

/// The product of two scalars, rounded down to a millionth.
pub open spec fn product(a: int, b: int) -> int {
    saturate((a * b) / (ONE as int))
}

/// What accrues in `delta` microseconds at `rate` per second, rounded down
/// to a millionth and held to the `i64` range.
pub open spec fn accrued(rate: int, delta: int) -> int {
    saturate((rate * delta) / (ONE as int))
}

/// The share `elapsed / duration` of a time span that has passed, as a scalar
/// from 0 to 1, rounded down. A span of no length has passed entirely.
pub open spec fn fraction(elapsed: int, duration: int) -> int {
    if duration <= 0 || elapsed >= duration {
        ONE as int
    } else if elapsed <= 0 {
        0
    } else {
        (elapsed * ONE) / duration
    }
}

/// `base` raised to the power `exp`: 1.0 multiplied `exp` times by `base`,
/// each product rounded down to a millionth and held to the `i64` range.
pub open spec fn power(base: int, exp: nat) -> int
    decreases exp,
{
    if exp == 0 {
        ONE as int
    } else {
        product(power(base, (exp - 1) as nat), base)
    }
}

/// The product of two `i64` values fits an `i128` with room to spare.
pub proof fn lemma_wide_product(a: i64, b: i64)
    ensures
        -0x4000_0000_0000_0000_0000_0000_0000_0000 <= a * b
            <= 0x4000_0000_0000_0000_0000_0000_0000_0000,
{
    assert(-0x4000_0000_0000_0000_0000_0000_0000_0000 <= a * b
        <= 0x4000_0000_0000_0000_0000_0000_0000_0000) by (nonlinear_arith)
        requires
            -0x8000_0000_0000_0000 <= a <= 0x7fff_ffff_ffff_ffff,
            -0x8000_0000_0000_0000 <= b <= 0x7fff_ffff_ffff_ffff,
    ;
}

/// A share of a time span lies between 0 and 1, and is 1 exactly when the
/// span has passed.
pub proof fn lemma_fraction_range(elapsed: int, duration: int)
    ensures
        0 <= fraction(elapsed, duration) <= ONE,
        fraction(elapsed, duration) == ONE <==> (duration <= 0 || elapsed >= duration),
        elapsed <= 0 && duration > 0 ==> fraction(elapsed, duration) == 0,
{
    if duration > 0 && 0 < elapsed < duration {
        let q = (elapsed * ONE) / duration;
        assert(0 <= q < ONE) by (nonlinear_arith)
            requires
                0 < elapsed < duration,
                q == (elapsed * 1_000_000) / duration,
        ;
    }
}

/// The product of two scalars between 0 and 1 lies between 0 and the smaller
/// of them.
pub proof fn lemma_product_unit(a: int, b: int)
    requires
        0 <= a <= ONE,
        0 <= b <= ONE,
    ensures
        0 <= product(a, b) <= a,
        0 <= product(a, b) <= b,
        product(a, b) == (a * b) / (ONE as int),
{
    let q = (a * b) / 1_000_000;
    assert(0 <= q <= a && q <= b) by (nonlinear_arith)
        requires
            0 <= a <= 1_000_000,
            0 <= b <= 1_000_000,
            q == (a * b) / 1_000_000,
    ;
}

/// Once a power stops changing it keeps its value for every larger exponent.
pub proof fn lemma_power_settles(base: int, n: nat, m: nat)
    requires
        n <= m,
        product(power(base, n), base) == power(base, n),
    ensures
        power(base, m) == power(base, n),
    decreases m,
{
    if m > n {
        lemma_power_settles(base, n, (m - 1) as nat);
    }
}

/// Zero raised to a power above 0 is zero.
pub proof fn lemma_power_of_zero(exp: nat)
    requires
        exp > 0,
    ensures
        power(0, exp) == 0,
    decreases exp,
{
    let below = power(0, (exp - 1) as nat);
    assert((below * 0) / 1_000_000 == 0) by (nonlinear_arith);
}

/// A power of a scalar between 0 and 1 lies between 0 and 1.
pub proof fn lemma_power_range(base: int, exp: nat)
    requires
        0 <= base <= ONE,
    ensures
        0 <= power(base, exp) <= ONE,
    decreases exp,
{
    if exp > 0 {
        lemma_power_range(base, (exp - 1) as nat);
        lemma_product_unit(power(base, (exp - 1) as nat), base);
    }
}

/// The sum of two scalars; it stops at the ends of the `i64` range.
pub fn saturating_add(a: i64, b: i64) -> (r: i64)
    ensures
        r == saturate(a + b),
{
    match a.checked_add(b) {
        Some(s) => s,
        None => if b > 0 {
            i64::MAX
        } else {
            i64::MIN
        },
    }
}

/// `v` held to the range from `lo` to `hi`.
pub fn clamp(v: i64, lo: i64, hi: i64) -> (r: i64)
    requires
        lo <= hi,
    ensures
        r == clamped(v as int, lo as int, hi as int),
{
    if v < lo {
        lo
    } else if v > hi {
        hi
    } else {
        v
    }
}

/// The product of two scalars, rounded down to a millionth; it stops at the
/// ends of the `i64` range.
pub fn scale(a: i64, b: i64) -> (r: i64)
    ensures
        r == product(a as int, b as int),
{
    proof {
        lemma_wide_product(a, b);
    }
    let wide: i128 = (a as i128) * (b as i128);
    let q: i128 = match wide.checked_div_euclid(ONE as i128) {
        Some(q) => q,
        None => 0,
    };
    if q > i64::MAX as i128 {
        i64::MAX
    } else if q < i64::MIN as i128 {
        i64::MIN
    } else {
        q as i64
    }
}

/// What accrues in `delta` microseconds at `rate` per second.
pub fn accrue(rate: i64, delta: u64) -> (r: i64)
    ensures
        r == accrued(rate as int, delta as int),
{
    assert(-0x7fff_ffff_ffff_ffff_8000_0000_0000_0000 <= rate * delta
        <= 0x7fff_ffff_ffff_ffff_8000_0000_0000_0000) by (nonlinear_arith)
        requires
            -0x8000_0000_0000_0000 <= rate <= 0x7fff_ffff_ffff_ffff,
            0 <= delta <= 0xffff_ffff_ffff_ffff,
    ;
    let wide: i128 = (rate as i128) * (delta as i128);
    let q: i128 = match wide.checked_div_euclid(ONE as i128) {
        Some(q) => q,
        None => 0,
    };
    if q > i64::MAX as i128 {
        i64::MAX
    } else if q < i64::MIN as i128 {
        i64::MIN
    } else {
        q as i64
    }
}

/// The share of `duration` that `elapsed` covers, as a scalar from 0 to 1.
pub fn ratio(elapsed: u64, duration: u64) -> (r: i64)
    ensures
        r == fraction(elapsed as int, duration as int),
        0 <= r <= ONE,
{
    proof {
        lemma_fraction_range(elapsed as int, duration as int);
    }
    if duration == 0 || elapsed >= duration {
        ONE
    } else {
        assert(elapsed * 1_000_000 <= 0xffff_ffff_ffff_ffff * 1_000_000) by (nonlinear_arith)
            requires
                elapsed <= 0xffff_ffff_ffff_ffff,
        ;
        let wide: u128 = (elapsed as u128) * (ONE as u128);
        let q: u128 = wide / (duration as u128);
        q as i64
    }
}

/// `base` raised to the power `exp`, by repeated multiplication.
pub fn powi(base: i64, exp: u32) -> (r: i64)
    ensures
        r == power(base as int, exp as nat),
{
    let mut acc: i64 = ONE;
    let mut i: u32 = 0;
    while i < exp
        invariant
            i <= exp,
            acc == power(base as int, i as nat),
        decreases exp - i,
    {
        let next: i64 = scale(acc, base);
        if next == acc {
            proof {
                lemma_power_settles(base as int, i as nat, exp as nat);
            }
            return acc;
        }
        acc = next;
        i = i + 1;
    }
    acc
}

} // verus!
