//! RGBA color representation and animation interpolation.
//!
//! Each component is a fixed-point value between `0` and `ONE`; every
//! operation clamps its result back into that range. Byte-valued colors
//! convert losslessly: converting a byte in and back out reproduces it.

use vstd::prelude::*;

use crate::animatable::{lemma_lerp_spec_bounds, lemma_lerp_spec_endpoints, Animatable};
use crate::fixed::{fp_lerp, fp_mul, fp_sq, fp_mul_spec, lerp_spec, unit_clamp_spec, ONE};

verus! {

/// An RGBA color; each component lies in `[0, ONE]`.
#[derive(Clone, Copy, PartialEq, Eq, Structural, Debug)]
pub struct Color {
    /// Red component.
    pub r: i64,
    /// Green component.
    pub g: i64,
    /// Blue component.
    pub b: i64,
    /// Alpha component.
    pub a: i64,
}

/// The fixed-point component standing for a byte-valued channel.
pub open spec fn byte_to_unit_spec(x: int) -> int {
    (x * ONE) / 255
}

/// The byte nearest to a unit-interval component.
pub open spec fn unit_to_byte_spec(c: int) -> int {
    (c * 255 + HALF_ONE) / (ONE as int)
}

/// Half of `ONE`, the rounding offset of the byte conversion.
pub const HALF_ONE: i64 = 500_000;

fn clamp_unit(v: i64) -> (r: i64)
    requires
        i64::MIN < v,
    ensures
        r as int == unit_clamp_spec(v as int),
        0 <= r <= ONE,
{
    if v < 0 {
        0
    } else if v > ONE {
        ONE
    } else {
        v
    }
}

impl Color {
    /// Creates a color, clamping each component into `[0, ONE]`.
    pub fn new(r: i64, g: i64, b: i64, a: i64) -> (c: Color)
        requires
            i64::MIN < r,
            i64::MIN < g,
            i64::MIN < b,
            i64::MIN < a,
        ensures
            c.r as int == unit_clamp_spec(r as int),
            c.g as int == unit_clamp_spec(g as int),
            c.b as int == unit_clamp_spec(b as int),
            c.a as int == unit_clamp_spec(a as int),
            c.inv(),
    {
        Color { r: clamp_unit(r), g: clamp_unit(g), b: clamp_unit(b), a: clamp_unit(a) }
    }

    /// Creates a color from 8-bit RGBA values.
    pub fn from_rgba(r: u8, g: u8, b: u8, a: u8) -> (c: Color)
        ensures
            c.r as int == byte_to_unit_spec(r as int),
            c.g as int == byte_to_unit_spec(g as int),
            c.b as int == byte_to_unit_spec(b as int),
            c.a as int == byte_to_unit_spec(a as int),
            c.inv(),
    {
        proof {
            lemma_byte_to_unit_range(r as int);
            lemma_byte_to_unit_range(g as int);
            lemma_byte_to_unit_range(b as int);
            lemma_byte_to_unit_range(a as int);
        }
        Color {
            r: byte_to_unit(r),
            g: byte_to_unit(g),
            b: byte_to_unit(b),
            a: byte_to_unit(a),
        }
    }

    /// Converts the color to 8-bit RGBA values, rounding each component to the
    /// nearest byte.
    pub fn to_rgba(&self) -> (t: (u8, u8, u8, u8))
        requires
            self.inv(),
        ensures
            t.0 as int == unit_to_byte_spec(self.r as int),
            t.1 as int == unit_to_byte_spec(self.g as int),
            t.2 as int == unit_to_byte_spec(self.b as int),
            t.3 as int == unit_to_byte_spec(self.a as int),
    {
        (unit_to_byte(self.r), unit_to_byte(self.g), unit_to_byte(self.b), unit_to_byte(self.a))
    }
}

fn byte_to_unit(x: u8) -> (r: i64)
    ensures
        r as int == byte_to_unit_spec(x as int),
{
    ((x as u64 * ONE as u64) / 255) as i64
}

fn unit_to_byte(c: i64) -> (r: u8)
    requires
        0 <= c <= ONE,
    ensures
        r as int == unit_to_byte_spec(c as int),
{
    ((c as u64 * 255 + HALF_ONE as u64) / ONE as u64) as u8
}

/// A byte's fixed-point component lies in `[0, ONE]`.
pub proof fn lemma_byte_to_unit_range(x: int)
    requires
        0 <= x <= 255,
    ensures
        0 <= byte_to_unit_spec(x) <= ONE,
{
    assert(x * ONE <= 255 * ONE) by (nonlinear_arith)
        requires
            x <= 255,
    ;
    assert(0 <= x * ONE) by (nonlinear_arith)
        requires
            0 <= x,
    ;
    vstd::arithmetic::div_mod::lemma_div_is_ordered(x * ONE, 255 * (ONE as int), 255);
    vstd::arithmetic::div_mod::lemma_div_pos_is_pos(x * ONE, 255);
    assert((255 * (ONE as int)) / 255 == ONE) by {
        vstd::arithmetic::div_mod::lemma_fundamental_div_mod_converse(
            255 * (ONE as int),
            255,
            ONE as int,
            0,
        );
    }
}

/// Converting a byte to a fixed-point component and back reproduces it
/// exactly.
pub proof fn lemma_byte_roundtrip(x: int)
    requires
        0 <= x <= 255,
    ensures
        unit_to_byte_spec(byte_to_unit_spec(x)) == x,
{
    let c = byte_to_unit_spec(x);
    vstd::arithmetic::div_mod::lemma_fundamental_div_mod(x * ONE, 255);
    let rem = (x * (ONE as int)) % 255;
    assert(x * ONE == 255 * c + rem);
    assert(c * 255 + HALF_ONE == x * ONE + (HALF_ONE - rem)) by (nonlinear_arith)
        requires
            x * ONE == 255 * c + rem,
    ;
    vstd::arithmetic::div_mod::lemma_fundamental_div_mod_converse(
        c * 255 + (HALF_ONE as int),
        ONE as int,
        x,
        HALF_ONE - rem,
    );
}

/// Converting bytes to a [`Color`] and back reproduces them exactly.
pub proof fn lemma_color_roundtrip(r: int, g: int, b: int, a: int)
    requires
        0 <= r <= 255,
        0 <= g <= 255,
        0 <= b <= 255,
        0 <= a <= 255,
    ensures
        unit_to_byte_spec(byte_to_unit_spec(r)) == r,
        unit_to_byte_spec(byte_to_unit_spec(g)) == g,
        unit_to_byte_spec(byte_to_unit_spec(b)) == b,
        unit_to_byte_spec(byte_to_unit_spec(a)) == a,
{
    lemma_byte_roundtrip(r);
    lemma_byte_roundtrip(g);
    lemma_byte_roundtrip(b);
    lemma_byte_roundtrip(a);
}

/// Implementation of animation interpolation for [`Color`]: every operation
/// works component-wise and clamps back into `[0, ONE]`.
impl Animatable for Color {
    open spec fn inv(self) -> bool {
        &&& 0 <= self.r <= ONE
        &&& 0 <= self.g <= ONE
        &&& 0 <= self.b <= ONE
        &&& 0 <= self.a <= ONE
    }

    open spec fn s_zero() -> Color {
        Color { r: 0, g: 0, b: 0, a: 0 }
    }

    open spec fn s_epsilon() -> int {
        10
    }

    open spec fn s_mag_sq(self) -> int {
        self.r * self.r + self.g * self.g + self.b * self.b + self.a * self.a
    }

    open spec fn s_scale(self, factor: int) -> Color {
        Color {
            r: unit_clamp_spec(fp_mul_spec(self.r as int, factor)) as i64,
            g: unit_clamp_spec(fp_mul_spec(self.g as int, factor)) as i64,
            b: unit_clamp_spec(fp_mul_spec(self.b as int, factor)) as i64,
            a: unit_clamp_spec(fp_mul_spec(self.a as int, factor)) as i64,
        }
    }

    open spec fn s_add(self, other: Color) -> Color {
        Color {
            r: unit_clamp_spec(self.r + other.r) as i64,
            g: unit_clamp_spec(self.g + other.g) as i64,
            b: unit_clamp_spec(self.b + other.b) as i64,
            a: unit_clamp_spec(self.a + other.a) as i64,
        }
    }

    open spec fn s_sub(self, other: Color) -> Color {
        Color {
            r: unit_clamp_spec(self.r - other.r) as i64,
            g: unit_clamp_spec(self.g - other.g) as i64,
            b: unit_clamp_spec(self.b - other.b) as i64,
            a: unit_clamp_spec(self.a - other.a) as i64,
        }
    }

    open spec fn s_lerp(self, target: Color, t: int) -> Color {
        Color {
            r: unit_clamp_spec(lerp_spec(self.r as int, target.r as int, t)) as i64,
            g: unit_clamp_spec(lerp_spec(self.g as int, target.g as int, t)) as i64,
            b: unit_clamp_spec(lerp_spec(self.b as int, target.b as int, t)) as i64,
            a: unit_clamp_spec(lerp_spec(self.a as int, target.a as int, t)) as i64,
        }
    }

    proof fn lemma_zero_inv() {
    }

    proof fn lemma_ops_inv(self, other: Color, factor: int, t: int) {
        assert(self.r * self.r >= 0 && self.g * self.g >= 0 && self.b * self.b >= 0 && self.a
            * self.a >= 0) by (nonlinear_arith);
    }

    proof fn lemma_lerp_endpoints(self, target: Color) {
        lemma_lerp_spec_endpoints(self.r as int, target.r as int);
        lemma_lerp_spec_endpoints(self.g as int, target.g as int);
        lemma_lerp_spec_endpoints(self.b as int, target.b as int);
        lemma_lerp_spec_endpoints(self.a as int, target.a as int);
    }

    fn zero() -> (r: Color) {
        Color { r: 0, g: 0, b: 0, a: 0 }
    }

    fn epsilon() -> (r: i64) {
        10
    }

    fn magnitude_sq(&self) -> (r: u128) {
        fp_sq(self.r) + fp_sq(self.g) + fp_sq(self.b) + fp_sq(self.a)
    }

    fn scale(&self, factor: i64) -> (r: Color) {
        Color::new(
            fp_mul(self.r, factor),
            fp_mul(self.g, factor),
            fp_mul(self.b, factor),
            fp_mul(self.a, factor),
        )
    }

    fn add(&self, other: &Color) -> (r: Color) {
        Color::new(self.r + other.r, self.g + other.g, self.b + other.b, self.a + other.a)
    }

    fn sub(&self, other: &Color) -> (r: Color) {
        Color::new(self.r - other.r, self.g - other.g, self.b - other.b, self.a - other.a)
    }

    fn interpolate(&self, target: &Color, t: i64) -> (r: Color) {
        proof {
            lemma_lerp_spec_bounds(self.r as int, target.r as int, t as int);
            lemma_lerp_spec_bounds(self.g as int, target.g as int, t as int);
            lemma_lerp_spec_bounds(self.b as int, target.b as int, t as int);
            lemma_lerp_spec_bounds(self.a as int, target.a as int, t as int);
        }
        Color::new(
            fp_lerp(self.r, target.r, t),
            fp_lerp(self.g, target.g, t),
            fp_lerp(self.b, target.b, t),
            fp_lerp(self.a, target.a, t),
        )
    }
}

} // verus!
