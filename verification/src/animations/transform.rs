//! A 2D transform (translation, scale, rotation) as an animatable value.

use vstd::prelude::*;

use crate::animatable::{lemma_lerp_spec_bounds, lemma_lerp_spec_endpoints, Animatable};
use crate::fixed::{
    fp_lerp, fp_mul, fp_sq, sat_add, sat_sub, fp_mul_spec, lerp_spec, sat_add_spec, sat_sub_spec,
    FP_MAX,
};

verus! {

/// A 2D transform; each component is a fixed-point value in the fixed-point
/// domain.
#[derive(Clone, Copy, PartialEq, Eq, Structural, Debug)]
pub struct Transform {
    /// Horizontal translation.
    pub x: i64,
    /// Vertical translation.
    pub y: i64,
    /// Uniform scale factor.
    pub scale: i64,
    /// Rotation.
    pub rotation: i64,
}

impl Transform {
    pub fn new(x: i64, y: i64, scale: i64, rotation: i64) -> (t: Transform)
        requires
            -FP_MAX <= x <= FP_MAX,
            -FP_MAX <= y <= FP_MAX,
            -FP_MAX <= scale <= FP_MAX,
            -FP_MAX <= rotation <= FP_MAX,
        ensures
            t == (Transform { x, y, scale, rotation }),
            t.inv(),
    {
        Transform { x, y, scale, rotation }
    }
}

/// Implementation of animation interpolation for [`Transform`]: every
/// operation works component-wise and saturates at the fixed-point bound.
impl Animatable for Transform {
    open spec fn inv(self) -> bool {
        &&& -FP_MAX <= self.x <= FP_MAX
        &&& -FP_MAX <= self.y <= FP_MAX
        &&& -FP_MAX <= self.scale <= FP_MAX
        &&& -FP_MAX <= self.rotation <= FP_MAX
    }

    open spec fn s_zero() -> Transform {
        Transform { x: 0, y: 0, scale: 0, rotation: 0 }
    }

    open spec fn s_epsilon() -> int {
        1000
    }

    open spec fn s_mag_sq(self) -> int {
        self.x * self.x + self.y * self.y + self.scale * self.scale + self.rotation * self.rotation
    }

    open spec fn s_scale(self, factor: int) -> Transform {
        Transform {
            x: fp_mul_spec(self.x as int, factor) as i64,
            y: fp_mul_spec(self.y as int, factor) as i64,
            scale: fp_mul_spec(self.scale as int, factor) as i64,
            rotation: fp_mul_spec(self.rotation as int, factor) as i64,
        }
    }

    open spec fn s_add(self, other: Transform) -> Transform {
        Transform {
            x: sat_add_spec(self.x as int, other.x as int) as i64,
            y: sat_add_spec(self.y as int, other.y as int) as i64,
            scale: sat_add_spec(self.scale as int, other.scale as int) as i64,
            rotation: sat_add_spec(self.rotation as int, other.rotation as int) as i64,
        }
    }

    open spec fn s_sub(self, other: Transform) -> Transform {
        Transform {
            x: sat_sub_spec(self.x as int, other.x as int) as i64,
            y: sat_sub_spec(self.y as int, other.y as int) as i64,
            scale: sat_sub_spec(self.scale as int, other.scale as int) as i64,
            rotation: sat_sub_spec(self.rotation as int, other.rotation as int) as i64,
        }
    }

    open spec fn s_lerp(self, target: Transform, t: int) -> Transform {
        Transform {
            x: lerp_spec(self.x as int, target.x as int, t) as i64,
            y: lerp_spec(self.y as int, target.y as int, t) as i64,
            scale: lerp_spec(self.scale as int, target.scale as int, t) as i64,
            rotation: lerp_spec(self.rotation as int, target.rotation as int, t) as i64,
        }
    }

    proof fn lemma_zero_inv() {
    }

    proof fn lemma_ops_inv(self, other: Transform, factor: int, t: int) {
        assert(self.x * self.x >= 0 && self.y * self.y >= 0 && self.scale * self.scale >= 0
            && self.rotation * self.rotation >= 0) by (nonlinear_arith);
        lemma_lerp_spec_bounds(self.x as int, other.x as int, t);
        lemma_lerp_spec_bounds(self.y as int, other.y as int, t);
        lemma_lerp_spec_bounds(self.scale as int, other.scale as int, t);
        lemma_lerp_spec_bounds(self.rotation as int, other.rotation as int, t);
    }

    proof fn lemma_lerp_endpoints(self, target: Transform) {
        lemma_lerp_spec_endpoints(self.x as int, target.x as int);
        lemma_lerp_spec_endpoints(self.y as int, target.y as int);
        lemma_lerp_spec_endpoints(self.scale as int, target.scale as int);
        lemma_lerp_spec_endpoints(self.rotation as int, target.rotation as int);
    }

    fn zero() -> (r: Transform) {
        Transform { x: 0, y: 0, scale: 0, rotation: 0 }
    }

    fn epsilon() -> (r: i64) {
        1000
    }

    fn magnitude_sq(&self) -> (r: u128) {
        fp_sq(self.x) + fp_sq(self.y) + fp_sq(self.scale) + fp_sq(self.rotation)
    }

    fn scale(&self, factor: i64) -> (r: Transform) {
        Transform {
            x: fp_mul(self.x, factor),
            y: fp_mul(self.y, factor),
            scale: fp_mul(self.scale, factor),
            rotation: fp_mul(self.rotation, factor),
        }
    }

    fn add(&self, other: &Transform) -> (r: Transform) {
        Transform {
            x: sat_add(self.x, other.x),
            y: sat_add(self.y, other.y),
            scale: sat_add(self.scale, other.scale),
            rotation: sat_add(self.rotation, other.rotation),
        }
    }

    fn sub(&self, other: &Transform) -> (r: Transform) {
        Transform {
            x: sat_sub(self.x, other.x),
            y: sat_sub(self.y, other.y),
            scale: sat_sub(self.scale, other.scale),
            rotation: sat_sub(self.rotation, other.rotation),
        }
    }

    fn interpolate(&self, target: &Transform, t: i64) -> (r: Transform) {
        Transform {
            x: fp_lerp(self.x, target.x, t),
            y: fp_lerp(self.y, target.y, t),
            scale: fp_lerp(self.scale, target.scale, t),
            rotation: fp_lerp(self.rotation, target.rotation, t),
        }
    }
}

} // verus!
