//! The capability an animatable value type must supply: additive identity,
//! completion threshold, squared norm, component-wise arithmetic and linear
//! interpolation. Scalars are plain fixed-point `i64` values; colors and
//! transforms implement the same contract component-wise.

use vstd::prelude::*;

use crate::fixed::{
    fp_lerp, fp_mul, fp_sq, sat_add, sat_sub, clamp_spec, fp_mul_spec, lerp_spec, sat_add_spec,
    sat_sub_spec, FP_MAX, ONE,
};

verus! {

/// An animatable value: a small vector of fixed-point components.
///
/// The spec functions pin each operation exactly; the exec methods are proved
/// to compute them. Every operation maps well-formed values (`inv`) to
/// well-formed values, and `interpolate` is exact at both endpoints.
pub trait Animatable: Sized + Copy {
    /// Well-formedness: every component lies in the type's domain.
    spec fn inv(self) -> bool;

    /// The additive identity, as a spec value.
    spec fn s_zero() -> Self;

    /// The minimum meaningful difference, as a spec value.
    spec fn s_epsilon() -> int;

    /// Squared norm: the sum of the squared components.
    spec fn s_mag_sq(self) -> int;

    /// Component-wise scaling by a fixed-point factor.
    spec fn s_scale(self, factor: int) -> Self;

    /// Component-wise sum.
    spec fn s_add(self, other: Self) -> Self;

    /// Component-wise difference.
    spec fn s_sub(self, other: Self) -> Self;

    /// Linear interpolation toward `target` at position `t` out of `ONE`.
    spec fn s_lerp(self, target: Self, t: int) -> Self;

    /// The additive identity is well-formed.
    proof fn lemma_zero_inv()
        ensures
            Self::s_zero().inv(),
    ;

    /// The operations stay inside the type's domain, and the squared norm is
    /// non-negative.
    proof fn lemma_ops_inv(self, other: Self, factor: int, t: int)
        requires
            self.inv(),
            other.inv(),
            -FP_MAX <= factor <= FP_MAX,
            0 <= t <= ONE,
        ensures
            self.s_scale(factor).inv(),
            self.s_add(other).inv(),
            self.s_sub(other).inv(),
            self.s_lerp(other, t).inv(),
            self.s_mag_sq() >= 0,
    ;

    /// Interpolation is exact at both endpoints.
    proof fn lemma_lerp_endpoints(self, target: Self)
        requires
            self.inv(),
            target.inv(),
        ensures
            self.s_lerp(target, 0) == self,
            self.s_lerp(target, ONE as int) == target,
    ;

    fn zero() -> (r: Self)
        ensures
            r == Self::s_zero(),
    ;

    fn epsilon() -> (r: i64)
        ensures
            r as int == Self::s_epsilon(),
    ;

    fn magnitude_sq(&self) -> (r: u128)
        requires
            self.inv(),
        ensures
            r as int == self.s_mag_sq(),
    ;

    fn scale(&self, factor: i64) -> (r: Self)
        requires
            self.inv(),
            -FP_MAX <= factor <= FP_MAX,
        ensures
            r == self.s_scale(factor as int),
    ;

    fn add(&self, other: &Self) -> (r: Self)
        requires
            self.inv(),
            other.inv(),
        ensures
            r == self.s_add(*other),
    ;

    fn sub(&self, other: &Self) -> (r: Self)
        requires
            self.inv(),
            other.inv(),
        ensures
            r == self.s_sub(*other),
    ;

    fn interpolate(&self, target: &Self, t: i64) -> (r: Self)
        requires
            self.inv(),
            target.inv(),
            0 <= t <= ONE,
        ensures
            r == self.s_lerp(*target, t as int),
    ;
}

/// A scalar animatable value: one fixed-point component, clamped to the
/// fixed-point domain by every operation.
impl Animatable for i64 {
    open spec fn inv(self) -> bool {
        -FP_MAX <= self <= FP_MAX
    }

    open spec fn s_zero() -> i64 {
        0
    }

    open spec fn s_epsilon() -> int {
        1000
    }

    open spec fn s_mag_sq(self) -> int {
        (self as int) * (self as int)
    }

    open spec fn s_scale(self, factor: int) -> i64 {
        fp_mul_spec(self as int, factor) as i64
    }

    open spec fn s_add(self, other: i64) -> i64 {
        sat_add_spec(self as int, other as int) as i64
    }

    open spec fn s_sub(self, other: i64) -> i64 {
        sat_sub_spec(self as int, other as int) as i64
    }

    open spec fn s_lerp(self, target: i64, t: int) -> i64 {
        lerp_spec(self as int, target as int, t) as i64
    }

    proof fn lemma_zero_inv() {
    }

    proof fn lemma_ops_inv(self, other: i64, factor: int, t: int) {
        assert(self.s_mag_sq() >= 0) by (nonlinear_arith);
        lemma_lerp_spec_bounds(self as int, other as int, t);
    }

    proof fn lemma_lerp_endpoints(self, target: i64) {
        lemma_lerp_spec_endpoints(self as int, target as int);
    }

    fn zero() -> (r: i64) {
        0
    }

    fn epsilon() -> (r: i64) {
        1000
    }

    fn magnitude_sq(&self) -> (r: u128) {
        fp_sq(*self)
    }

    fn scale(&self, factor: i64) -> (r: i64) {
        fp_mul(*self, factor)
    }

    fn add(&self, other: &i64) -> (r: i64) {
        sat_add(*self, *other)
    }

    fn sub(&self, other: &i64) -> (r: i64) {
        sat_sub(*self, *other)
    }

    fn interpolate(&self, target: &i64, t: i64) -> (r: i64) {
        fp_lerp(*self, *target, t)
    }
}

/// The interpolation formula stays between its endpoints, so it stays in the
/// fixed-point domain.
pub proof fn lemma_lerp_spec_bounds(a: int, b: int, t: int)
    requires
        -FP_MAX <= a <= FP_MAX,
        -FP_MAX <= b <= FP_MAX,
        0 <= t <= ONE,
    ensures
        a <= b ==> a <= lerp_spec(a, b, t) <= b,
        b <= a ==> b <= lerp_spec(a, b, t) <= a,
{
    let d = if b >= a {
        b - a
    } else {
        a - b
    };
    assert(d * t <= d * ONE) by (nonlinear_arith)
        requires
            0 <= d,
            t <= ONE,
    ;
    assert(0 <= d * t) by (nonlinear_arith)
        requires
            0 <= d,
            0 <= t,
    ;
    vstd::arithmetic::div_mod::lemma_div_is_ordered(d * t, d * (ONE as int), ONE as int);
    vstd::arithmetic::div_mod::lemma_div_by_multiple(d, ONE as int);
    vstd::arithmetic::div_mod::lemma_div_pos_is_pos(d * t, ONE as int);
}

/// The interpolation formula is exact at `t == 0` and `t == ONE`.
pub proof fn lemma_lerp_spec_endpoints(a: int, b: int)
    requires
        -FP_MAX <= a <= FP_MAX,
        -FP_MAX <= b <= FP_MAX,
    ensures
        lerp_spec(a, b, 0) == a,
        lerp_spec(a, b, ONE as int) == b,
{
    let d = if b >= a {
        b - a
    } else {
        a - b
    };
    vstd::arithmetic::div_mod::lemma_div_by_multiple(d, ONE as int);
    assert(d * 0 == 0) by (nonlinear_arith);
    vstd::arithmetic::div_mod::lemma_div_pos_is_pos(0, ONE as int);
    assert((0 as int) / (ONE as int) == 0);
}

} // verus!
