//! Fixed-point arithmetic for animation values.
//!
//! A value is an `i64` counting units of one millionth: `ONE` stands for 1.0.
//! All operations clamp their result to the magnitude bound `FP_MAX`, so every
//! operation is total and its result is pinned exactly by a spec function.
//! Time spans are `u64` microsecond counts; since the scale is one million,
//! a span in microseconds is also the span in fixed-point seconds.

use vstd::prelude::*;

verus! {

/// 1.0 in fixed point: one million units.
pub const ONE: i64 = 1_000_000;

/// Largest magnitude a fixed-point value may take (one million in real units).
pub const FP_MAX: i64 = 1_000_000_000_000;

/// Clamp an unbounded integer into the fixed-point domain.
pub open spec fn clamp_spec(v: int) -> int {
    if v < -FP_MAX {
        -FP_MAX as int
    } else if v > FP_MAX {
        FP_MAX as int
    } else {
        v
    }
}

/// Clamp an unbounded integer into the unit interval `[0, ONE]`.
pub open spec fn unit_clamp_spec(v: int) -> int {
    if v < 0 {
        0
    } else if v > ONE {
        ONE as int
    } else {
        v
    }
}

pub open spec fn abs_spec(v: int) -> int {
    if v < 0 {
        -v
    } else {
        v
    }
}

/// Fixed-point product `(a * b) / ONE`, truncated toward zero, clamped.
pub open spec fn fp_mul_spec(a: int, b: int) -> int {
    let m = (abs_spec(a) * abs_spec(b)) / (ONE as int);
    if (a < 0) != (b < 0) {
        clamp_spec(-m)
    } else {
        clamp_spec(m)
    }
}

/// Fixed-point quotient `(a * ONE) / b` for non-negative `a` and positive `b`, clamped.
pub open spec fn fp_div_pos_spec(a: int, b: int) -> int {
    clamp_spec((a * ONE) / b)
}

/// Saturating sum.
pub open spec fn sat_add_spec(a: int, b: int) -> int {
    clamp_spec(a + b)
}

/// Saturating difference.
pub open spec fn sat_sub_spec(a: int, b: int) -> int {
    clamp_spec(a - b)
}

/// Linear interpolation from `a` toward `b` at position `t` out of `ONE`:
/// `a + (b - a) * t / ONE`, the scaled difference truncated toward zero.
pub open spec fn lerp_spec(a: int, b: int, t: int) -> int {
    if b >= a {
        a + ((b - a) * t) / (ONE as int)
    } else {
        a - ((a - b) * t) / (ONE as int)
    }
}

/// Saturating sum of two u64 counts (used for elapsed-time accounting).
pub open spec fn sat_add_u64_spec(a: int, b: int) -> int {
    if a + b > u64::MAX {
        u64::MAX as int
    } else {
        a + b
    }
}

pub fn abs_i64(a: i64) -> (r: i64)
    requires
        -FP_MAX <= a <= FP_MAX,
    ensures
        r as int == abs_spec(a as int),
        0 <= r <= FP_MAX,
{
    if a < 0 {
        -a
    } else {
        a
    }
}

pub fn fp_mul(a: i64, b: i64) -> (r: i64)
    requires
        -FP_MAX <= a <= FP_MAX,
        -FP_MAX <= b <= FP_MAX,
    ensures
        r as int == fp_mul_spec(a as int, b as int),
        -FP_MAX <= r <= FP_MAX,
{
    let neg: bool = (a < 0) != (b < 0);
    let ma: u128 = abs_i64(a) as u128;
    let mb: u128 = abs_i64(b) as u128;
    proof {
        assert(ma * mb <= (FP_MAX as int) * (FP_MAX as int)) by (nonlinear_arith)
            requires
                0 <= ma <= FP_MAX,
                0 <= mb <= FP_MAX,
        ;
    }
    let m: u128 = (ma * mb) / (ONE as u128);
    let mc: u128 = if m > FP_MAX as u128 {
        FP_MAX as u128
    } else {
        m
    };
    let mi: i64 = mc as i64;
    if neg {
        -mi
    } else {
        mi
    }
}

pub fn fp_div_pos(a: i64, b: i64) -> (r: i64)
    requires
        0 <= a <= FP_MAX,
        1 <= b <= FP_MAX,
    ensures
        r as int == fp_div_pos_spec(a as int, b as int),
        0 <= r <= FP_MAX,
{
    let q: u128 = (a as u128 * ONE as u128) / (b as u128);
    let qc: u128 = if q > FP_MAX as u128 {
        FP_MAX as u128
    } else {
        q
    };
    qc as i64
}

pub fn sat_add(a: i64, b: i64) -> (r: i64)
    requires
        -FP_MAX <= a <= FP_MAX,
        -FP_MAX <= b <= FP_MAX,
    ensures
        r as int == sat_add_spec(a as int, b as int),
        -FP_MAX <= r <= FP_MAX,
{
    let s: i64 = a + b;
    if s > FP_MAX {
        FP_MAX
    } else if s < -FP_MAX {
        -FP_MAX
    } else {
        s
    }
}

pub fn sat_sub(a: i64, b: i64) -> (r: i64)
    requires
        -FP_MAX <= a <= FP_MAX,
        -FP_MAX <= b <= FP_MAX,
    ensures
        r as int == sat_sub_spec(a as int, b as int),
        -FP_MAX <= r <= FP_MAX,
{
    let s: i64 = a - b;
    if s > FP_MAX {
        FP_MAX
    } else if s < -FP_MAX {
        -FP_MAX
    } else {
        s
    }
}

proof fn lemma_scaled_diff_bound(d: int, t: int)
    requires
        0 <= d,
        0 <= t <= ONE,
    ensures
        0 <= (d * t) / (ONE as int) <= d,
        t == ONE ==> (d * t) / (ONE as int) == d,
        t == 0 ==> (d * t) / (ONE as int) == 0,
{
    assert(d * t <= d * ONE) by (nonlinear_arith)
        requires
            0 <= d,
            t <= ONE,
    ;
    assert(0 <= d * t) by (nonlinear_arith)
        requires
            0 <= d,
            0 <= t,
    ;
    vstd::arithmetic::div_mod::lemma_div_is_ordered(d * t, d * (ONE as int), ONE as int);
    vstd::arithmetic::div_mod::lemma_div_by_multiple(d, ONE as int);
    vstd::arithmetic::div_mod::lemma_div_pos_is_pos(d * t, ONE as int);
}

pub fn fp_lerp(a: i64, b: i64, t: i64) -> (r: i64)
    requires
        -FP_MAX <= a <= FP_MAX,
        -FP_MAX <= b <= FP_MAX,
        0 <= t <= ONE,
    ensures
        r as int == lerp_spec(a as int, b as int, t as int),
        t == 0 ==> r == a,
        t == ONE ==> r == b,
        a <= b ==> a <= r <= b,
        b <= a ==> b <= r <= a,
{
    proof {
        lemma_scaled_diff_bound(abs_spec(b as int - a as int), t as int);
    }
    if b >= a {
        let d: u128 = (b - a) as u128;
        let scaled: i64 = ((d * t as u128) / ONE as u128) as i64;
        a + scaled
    } else {
        let d: u128 = (a - b) as u128;
        let scaled: i64 = ((d * t as u128) / ONE as u128) as i64;
        a - scaled
    }
}

/// Squared value as a wide unsigned integer, for magnitude comparisons.
pub fn fp_sq(a: i64) -> (r: u128)
    requires
        -FP_MAX <= a <= FP_MAX,
    ensures
        r as int == (a as int) * (a as int),
        r as int <= (FP_MAX as int) * (FP_MAX as int),
{
    let m: u128 = abs_i64(a) as u128;
    proof {
        assert(m * m == (a as int) * (a as int) && m * m <= (FP_MAX as int) * (FP_MAX as int))
            by (nonlinear_arith)
            requires
                m == abs_spec(a as int),
                0 <= m <= FP_MAX,
        ;
    }
    m * m
}

pub fn sat_add_u64(a: u64, b: u64) -> (r: u64)
    ensures
        r as int == sat_add_u64_spec(a as int, b as int),
{
    if b > u64::MAX - a {
        u64::MAX
    } else {
        a + b
    }
}

} // verus!
