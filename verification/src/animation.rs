//! Animation parameters: easing curves, tween and spring settings, the
//! animation mode, loop policy and per-animation configuration.

use vstd::prelude::*;

use crate::fixed::{fp_mul, fp_mul_spec, FP_MAX, ONE};

verus! {

/// Half of the unit interval, the switch point of the in-out easing curve.
pub const HALF: i64 = 500_000;

/// An easing curve: a pure map from normalized progress in `[0, ONE]` to eased
/// progress in `[0, ONE]`, exact at both ends. The default is linear.
#[derive(Clone, Copy, PartialEq, Eq, Structural, Debug)]
pub enum Easing {
    Linear,
    QuadIn,
    QuadOut,
    QuadInOut,
}

/// The eased progress at `t` out of `ONE`.
pub open spec fn ease_spec(e: Easing, t: int) -> int {
    match e {
        Easing::Linear => t,
        Easing::QuadIn => fp_mul_spec(t, t),
        Easing::QuadOut => ONE - fp_mul_spec(ONE - t, ONE - t),
        Easing::QuadInOut => if t < HALF {
            2 * fp_mul_spec(t, t)
        } else {
            ONE - 2 * fp_mul_spec(ONE - t, ONE - t)
        },
    }
}

/// The square of a unit-interval value stays in the unit interval, and is
/// exact at both ends.
proof fn lemma_unit_sq(t: int)
    requires
        0 <= t <= ONE,
    ensures
        0 <= fp_mul_spec(t, t) <= t,
        t == ONE ==> fp_mul_spec(t, t) == ONE,
        2 * fp_mul_spec(t, t) <= 2 * t,
{
    assert(t * t <= t * ONE) by (nonlinear_arith)
        requires
            0 <= t <= ONE,
    ;
    assert(0 <= t * t) by (nonlinear_arith)
        requires
            0 <= t,
    ;
    vstd::arithmetic::div_mod::lemma_div_is_ordered(t * t, t * (ONE as int), ONE as int);
    vstd::arithmetic::div_mod::lemma_div_by_multiple(t, ONE as int);
    vstd::arithmetic::div_mod::lemma_div_pos_is_pos(t * t, ONE as int);
}

/// Eased progress stays in the unit interval and is exact at both ends.
pub proof fn lemma_ease_range(e: Easing, t: int)
    requires
        0 <= t <= ONE,
    ensures
        0 <= ease_spec(e, t) <= ONE,
        t == 0 ==> ease_spec(e, t) == 0,
        t == ONE ==> ease_spec(e, t) == ONE,
{
    lemma_unit_sq(t);
    lemma_unit_sq(ONE - t);
}

impl Easing {
    /// Evaluate the curve at progress `t` out of `ONE`.
    pub fn eval(&self, t: i64) -> (r: i64)
        requires
            0 <= t <= ONE,
        ensures
            r as int == ease_spec(*self, t as int),
            0 <= r <= ONE,
            t == 0 ==> r == 0,
            t == ONE ==> r == ONE,
    {
        proof {
            lemma_ease_range(*self, t as int);
        }
        match self {
            Easing::Linear => t,
            Easing::QuadIn => fp_mul(t, t),
            Easing::QuadOut => ONE - fp_mul(ONE - t, ONE - t),
            Easing::QuadInOut => {
                if t < HALF {
                    2 * fp_mul(t, t)
                } else {
                    ONE - 2 * fp_mul(ONE - t, ONE - t)
                }
            },
        }
    }
}

/// A tween: a duration in microseconds and an easing curve.
#[derive(Clone, Copy, PartialEq, Eq, Structural, Debug)]
pub struct Tween {
    /// Duration of one cycle, in microseconds.
    pub duration: u64,
    /// The easing curve applied to normalized progress.
    pub easing: Easing,
}

/// The default tween duration: 300 milliseconds.
pub const DEFAULT_TWEEN_DURATION: u64 = 300_000;

impl Tween {
    pub fn new(duration: u64) -> (r: Tween)
        ensures
            r.duration == duration,
            r.easing == Easing::Linear,
    {
        Tween { duration, easing: Easing::Linear }
    }

    pub fn with_easing(self, easing: Easing) -> (r: Tween)
        ensures
            r.duration == self.duration,
            r.easing == easing,
    {
        Tween { duration: self.duration, easing }
    }
}

impl Default for Tween {
    fn default() -> (r: Tween)
        ensures
            r.duration == DEFAULT_TWEEN_DURATION,
            r.easing == Easing::Linear,
    {
        Tween { duration: DEFAULT_TWEEN_DURATION, easing: Easing::Linear }
    }
}

/// Physical parameters of a damped harmonic oscillator, in fixed point.
#[derive(Clone, Copy, PartialEq, Eq, Structural, Debug)]
pub struct Spring {
    pub stiffness: i64,
    pub damping: i64,
    pub mass: i64,
}

/// The smallest mass the constructor admits; division by the mass is required,
/// so a non-positive mass is clamped up to this.
pub const MIN_MASS: i64 = 1;

impl Spring {
    /// The parameter ranges the integrator relies on: non-negative stiffness
    /// and damping, strictly positive mass, all within the fixed-point domain.
    pub open spec fn wf(self) -> bool {
        &&& 0 <= self.stiffness <= FP_MAX
        &&& 0 <= self.damping <= FP_MAX
        &&& MIN_MASS <= self.mass <= FP_MAX
    }

    /// Builds a spring, clamping each parameter into the range the integrator
    /// relies on (in particular a non-positive mass is clamped up).
    pub fn new(stiffness: i64, damping: i64, mass: i64) -> (r: Spring)
        ensures
            r.wf(),
            0 <= stiffness <= FP_MAX ==> r.stiffness == stiffness,
            0 <= damping <= FP_MAX ==> r.damping == damping,
            MIN_MASS <= mass <= FP_MAX ==> r.mass == mass,
    {
        Spring {
            stiffness: clamp_range(stiffness, 0, FP_MAX),
            damping: clamp_range(damping, 0, FP_MAX),
            mass: clamp_range(mass, MIN_MASS, FP_MAX),
        }
    }
}

fn clamp_range(v: i64, lo: i64, hi: i64) -> (r: i64)
    requires
        lo <= hi,
    ensures
        lo <= r <= hi,
        lo <= v <= hi ==> r == v,
{
    if v < lo {
        lo
    } else if v > hi {
        hi
    } else {
        v
    }
}

/// The default spring: stiffness 100, damping 10, mass 1, in fixed point.
impl Default for Spring {
    fn default() -> (r: Spring)
        ensures
            r.wf(),
            r.stiffness == 100 * ONE,
            r.damping == 10 * ONE,
            r.mass == ONE,
    {
        Spring { stiffness: 100 * ONE, damping: 10 * ONE, mass: ONE }
    }
}

/// How an animation advances: an eased tween or a damped spring.
#[derive(Clone, Copy, PartialEq, Eq, Structural, Debug)]
pub enum AnimationMode {
    Tween(Tween),
    Spring(Spring),
}

impl AnimationMode {
    /// Any spring parameters lie in the range the integrator relies on.
    pub open spec fn wf(self) -> bool {
        match self {
            AnimationMode::Tween(_) => true,
            AnimationMode::Spring(s) => s.wf(),
        }
    }
}

impl Default for AnimationMode {
    fn default() -> (r: AnimationMode)
        ensures
            r == AnimationMode::Tween(
                Tween { duration: DEFAULT_TWEEN_DURATION, easing: Easing::Linear },
            ),
    {
        AnimationMode::Tween(Tween { duration: DEFAULT_TWEEN_DURATION, easing: Easing::Linear })
    }
}

/// Represents the current state of an animation.
#[derive(Debug, Clone, Copy, PartialEq, Eq, Structural)]
pub enum AnimationState {
    Idle,
    Running,
    Completed,
}

/// Loop policy applied when one cycle of the underlying animation completes.
#[derive(Clone, Copy, PartialEq, Eq, Structural, Debug)]
pub enum LoopMode {
    NoLoop,
    Infinite,
    Times(u8),
}

/// Per-animation configuration. The completion callback is carried as an
/// opaque token: when the animation ends the token is reported through
/// [`crate::Motion::take_event`], and the host invokes whatever handler it
/// registered under it.
#[derive(Clone, Copy, PartialEq, Eq, Structural, Debug)]
pub struct AnimationConfig {
    pub mode: AnimationMode,
    pub loop_mode: Option<LoopMode>,
    /// Pre-start delay in microseconds.
    pub delay: u64,
    /// One-shot completion callback token.
    pub on_complete: Option<u64>,
}

impl AnimationConfig {
    /// Any spring parameters lie in the range the integrator relies on.
    pub open spec fn wf(self) -> bool {
        self.mode.wf()
    }

    pub fn new(mode: AnimationMode) -> (r: AnimationConfig)
        ensures
            r == (AnimationConfig {
                mode,
                loop_mode: None::<LoopMode>,
                delay: 0u64,
                on_complete: None::<u64>,
            }),
    {
        AnimationConfig { mode, loop_mode: None, delay: 0, on_complete: None }
    }

    pub fn with_loop(self, loop_mode: LoopMode) -> (r: AnimationConfig)
        ensures
            r == (AnimationConfig { loop_mode: Some(loop_mode), ..self }),
    {
        AnimationConfig { loop_mode: Some(loop_mode), ..self }
    }

    pub fn with_delay(self, delay: u64) -> (r: AnimationConfig)
        ensures
            r == (AnimationConfig { delay, ..self }),
    {
        AnimationConfig { delay, ..self }
    }

    pub fn with_on_complete(self, token: u64) -> (r: AnimationConfig)
        ensures
            r == (AnimationConfig { on_complete: Some(token), ..self }),
    {
        AnimationConfig { on_complete: Some(token), ..self }
    }
}

impl Default for AnimationConfig {
    fn default() -> (r: AnimationConfig)
        ensures
            r.mode == AnimationMode::Tween(
                Tween { duration: DEFAULT_TWEEN_DURATION, easing: Easing::Linear },
            ),
            r.loop_mode == None::<LoopMode>,
            r.delay == 0,
            r.on_complete == None::<u64>,
    {
        AnimationConfig {
            mode: AnimationMode::Tween(
                Tween { duration: DEFAULT_TWEEN_DURATION, easing: Easing::Linear },
            ),
            loop_mode: None,
            delay: 0,
            on_complete: None,
        }
    }
}

} // verus!
