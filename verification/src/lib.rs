//! Time-based interpolation of animatable values toward a target, using either
//! spring physics or eased tweens, with chained sequences and looping.
//!
//! Values are fixed-point integers (see [`fixed`]); time spans are microsecond
//! counts. The host polls [`Motion::update`] with a time delta each tick, reads
//! [`Motion::value`] to render, and drains [`Motion::take_event`] to dispatch
//! completion-callback tokens. The whole per-tick transition is pinned by the
//! spec function [`spec_update`], and the laws in [`laws`] are proved over it.

use vstd::prelude::*;

pub mod animatable;
pub mod animation;
pub mod animations;
pub mod fixed;
pub mod laws;

pub use crate::animatable::Animatable;
pub use crate::animation::{
    AnimationConfig, AnimationMode, AnimationState, Easing, LoopMode, Spring, Tween,
};
pub use crate::animations::colors::Color;
pub use crate::animations::transform::Transform;

use crate::fixed::{sat_add_u64, fp_div_pos, fp_mul, fp_div_pos_spec, fp_mul_spec,
    sat_add_u64_spec, FP_MAX, ONE};

verus! {

/// Ticks shorter than this many microseconds (about 1/240 s) are skipped:
/// sub-frame deltas do no numeric work.
pub const MIN_DELTA_US: u64 = 4167;

/// The spring integrator subdivides a tick into substeps of at most this many
/// microseconds (1/120 s).
pub const SUBSTEP_US: u64 = 8333;

/// Squared completion threshold: squared velocity and squared remaining delta
/// must both fall below this (0.001 squared, in fixed point) for a spring to
/// finish.
pub const EPS_SQ: u128 = 1_000_000;

/// Largest tick the integrator accepts, in microseconds: a tick is at most
/// `FP_MAX` when read as a fixed-point span of seconds.
pub const MAX_DT_US: u64 = 1_000_000_000_000;

/// The interpolation position used to precompute a step's midpoint hint.
pub const MIDPOINT: i64 = 500_000;

/// One step of an animation sequence: a target, the configuration that drives
/// the motion toward it, and a precomputed midpoint hint toward this target
/// from the previous one (kept for lookahead use; never read for control).
#[derive(Clone)]
pub struct AnimationStep<T: Animatable> {
    pub target: T,
    pub config: AnimationConfig,
    pub predicted_next: Option<T>,
}

/// An ordered list of animation steps with a cursor, and an optional one-shot
/// completion-callback token fired after the last step finishes.
#[derive(Clone)]
pub struct AnimationSequence<T: Animatable> {
    pub steps: Vec<AnimationStep<T>>,
    pub current_step: usize,
    pub on_complete: Option<u64>,
    pub capacity_hint: u8,
}

/// The step a call to `then` appends: the midpoint hint interpolates from the
/// previous step's target when there is one.
pub open spec fn then_step_spec<T: Animatable>(
    steps: Seq<AnimationStep<T>>,
    target: T,
    config: AnimationConfig,
) -> AnimationStep<T> {
    AnimationStep {
        target,
        config,
        predicted_next: if steps.len() == 0 {
            None
        } else {
            Some(steps.last().target.s_lerp(target, MIDPOINT as int))
        },
    }
}

impl<T: Animatable> AnimationSequence<T> {
    /// Every step holds a well-formed target and configuration.
    pub open spec fn wf(self) -> bool {
        forall|i: int|
            0 <= i < self.steps@.len() ==> ((#[trigger] self.steps@[i]).target.inv()
                && self.steps@[i].config.wf())
    }

    /// The cursor indexes a step whenever there are steps.
    pub open spec fn cursor_ok(self) -> bool {
        self.steps@.len() == 0 || self.current_step < self.steps@.len()
    }

    pub fn new() -> (r: AnimationSequence<T>)
        ensures
            r.steps@.len() == 0,
            r.current_step == 0,
            r.on_complete == None::<u64>,
            r.capacity_hint == 0,
            r.wf(),
            r.cursor_ok(),
    {
        AnimationSequence { steps: Vec::new(), current_step: 0, on_complete: None, capacity_hint: 0 }
    }

    pub fn with_capacity(capacity: u8) -> (r: AnimationSequence<T>)
        ensures
            r.steps@.len() == 0,
            r.current_step == 0,
            r.on_complete == None::<u64>,
            r.capacity_hint == capacity,
            r.wf(),
            r.cursor_ok(),
    {
        AnimationSequence {
            steps: Vec::with_capacity(capacity as usize),
            current_step: 0,
            on_complete: None,
            capacity_hint: capacity,
        }
    }

    /// Reserves space for more steps; the sequence's contents are unchanged.
    pub fn reserve(&mut self, additional: u8)
        ensures
            final(self).steps@ == old(self).steps@,
            final(self).current_step == old(self).current_step,
            final(self).on_complete == old(self).on_complete,
            final(self).capacity_hint == old(self).capacity_hint,
    {
        self.steps.reserve(additional as usize);
    }

    /// Appends a step toward `target` driven by `config`, precomputing the
    /// midpoint hint from the previous step's target.
    pub fn then(self, target: T, config: AnimationConfig) -> (r: AnimationSequence<T>)
        requires
            self.wf(),
            target.inv(),
            config.wf(),
        ensures
            r.steps@ == self.steps@.push(then_step_spec(self.steps@, target, config)),
            r.current_step == self.current_step,
            r.on_complete == self.on_complete,
            r.capacity_hint == self.capacity_hint,
            r.wf(),
    {
        let mut steps = self.steps;
        let predicted_next: Option<T> = if steps.len() == 0 {
            None
        } else {
            Some(steps[steps.len() - 1].target.interpolate(&target, MIDPOINT))
        };
        steps.push(AnimationStep { target, config, predicted_next });
        AnimationSequence {
            steps,
            current_step: self.current_step,
            on_complete: self.on_complete,
            capacity_hint: self.capacity_hint,
        }
    }

    /// Attaches the one-shot completion-callback token fired after the final
    /// step completes.
    pub fn on_complete(self, token: u64) -> (r: AnimationSequence<T>)
        ensures
            r.steps@ == self.steps@,
            r.current_step == self.current_step,
            r.on_complete == Some(token),
            r.capacity_hint == self.capacity_hint,
    {
        AnimationSequence {
            steps: self.steps,
            current_step: self.current_step,
            on_complete: Some(token),
            capacity_hint: self.capacity_hint,
        }
    }

    /// Appends many steps in one pass, threading the previous target for the
    /// midpoint hints; the first appended step gets no hint.
    pub fn batch_steps(self, items: Vec<(T, AnimationConfig)>) -> (r: AnimationSequence<T>)
        requires
            self.wf(),
            forall|i: int|
                0 <= i < items@.len() ==> (#[trigger] items@[i]).0.inv() && items@[i].1.wf(),
        ensures
            r.steps@.len() == self.steps@.len() + items@.len(),
            forall|i: int| 0 <= i < self.steps@.len() ==> r.steps@[i] == self.steps@[i],
            forall|i: int|
                0 <= i < items@.len() ==> r.steps@[self.steps@.len() + i] == (AnimationStep {
                    target: (#[trigger] items@[i]).0,
                    config: items@[i].1,
                    predicted_next: if i == 0 {
                        None
                    } else {
                        Some(items@[i - 1].0.s_lerp(items@[i].0, MIDPOINT as int))
                    },
                }),
            r.current_step == self.current_step,
            r.on_complete == self.on_complete,
            r.capacity_hint == self.capacity_hint,
            r.wf(),
    {
        let mut steps = self.steps;
        let ghost orig = steps@;
        let mut k: usize = 0;
        while k < items.len()
            invariant
                k <= items@.len(),
                steps@.len() == orig.len() + k,
                forall|i: int| 0 <= i < orig.len() ==> steps@[i] == orig[i],
                forall|i: int|
                    0 <= i < k ==> steps@[orig.len() + i] == (AnimationStep {
                        target: (#[trigger] items@[i]).0,
                        config: items@[i].1,
                        predicted_next: if i == 0 {
                            None
                        } else {
                            Some(items@[i - 1].0.s_lerp(items@[i].0, MIDPOINT as int))
                        },
                    }),
                forall|i: int|
                    0 <= i < items@.len() ==> (#[trigger] items@[i]).0.inv() && items@[i].1.wf(),
                forall|i: int|
                    0 <= i < steps@.len() ==> ((#[trigger] steps@[i]).target.inv()
                        && steps@[i].config.wf()),
            decreases items@.len() - k,
        {
            let (target, config) = items[k];
            let predicted_next: Option<T> = if k == 0 {
                None
            } else {
                Some(items[k - 1].0.interpolate(&target, MIDPOINT))
            };
            steps.push(AnimationStep { target, config, predicted_next });
            k = k + 1;
        }
        AnimationSequence {
            steps,
            current_step: self.current_step,
            on_complete: self.on_complete,
            capacity_hint: self.capacity_hint,
        }
    }
}

impl<T: Animatable> Default for AnimationSequence<T> {
    fn default() -> (r: AnimationSequence<T>)
        ensures
            r.steps@.len() == 0,
            r.current_step == 0,
            r.on_complete == None::<u64>,
            r.capacity_hint == 0,
    {
        AnimationSequence { steps: Vec::new(), current_step: 0, on_complete: None, capacity_hint: 0 }
    }
}

/// The live animation record: current, target and starting values, spring
/// velocity, the installed configuration, time accounting, the loop counter,
/// an optional active sequence, and the callback-token outbox.
pub struct Motion<T: Animatable> {
    pub current: T,
    pub target: T,
    pub initial: T,
    pub velocity: T,
    pub config: AnimationConfig,
    pub running: bool,
    /// Time accumulated into the current tween cycle, in microseconds.
    pub elapsed: u64,
    /// Time accumulated against the configured start delay, in microseconds.
    pub delay_elapsed: u64,
    pub current_loop: u8,
    pub sequence: Option<AnimationSequence<T>>,
    /// The callback token fired by the most recent `update` tick, if any.
    pub event: Option<u64>,
    /// How many callback tokens this record has ever fired (saturating).
    pub fired_count: u64,
}

impl<T: Animatable> Motion<T> {
    /// Well-formedness: all values are in their domains, any spring parameters
    /// are in range, an installed sequence is non-empty with a valid cursor,
    /// and the loop counter is below any finite loop bound.
    pub open spec fn inv(self) -> bool {
        &&& self.current.inv()
        &&& self.target.inv()
        &&& self.initial.inv()
        &&& self.velocity.inv()
        &&& self.config.wf()
        &&& match self.sequence {
            Some(s) => s.wf() && 1 <= s.steps@.len() && s.current_step < s.steps@.len(),
            None => true,
        }
        &&& self.loop_count_ok()
    }

    /// The loop counter never reaches a finite loop bound while stored.
    pub open spec fn loop_count_ok(self) -> bool {
        match self.config.loop_mode {
            Some(LoopMode::Times(c)) => self.current_loop == 0 || self.current_loop < c,
            _ => self.current_loop == 0,
        }
    }
}

/// Saturating increment of the fired-token counter.
fn sat_inc(c: u64) -> (r: u64)
    ensures
        r as int == sat_add_u64_spec(c as int, 1),
{
    if c == u64::MAX {
        c
    } else {
        c + 1
    }
}

/// The state after `animate_to`: any sequence is cancelled, the starting value
/// is snapshotted from the current one, the new target and configuration are
/// installed, and all per-animation accounting restarts.
pub open spec fn spec_animate_to<T: Animatable>(
    m: Motion<T>,
    target: T,
    config: AnimationConfig,
) -> Motion<T> {
    Motion {
        current: m.current,
        target,
        initial: m.current,
        velocity: T::s_zero(),
        config,
        running: true,
        elapsed: 0u64,
        delay_elapsed: 0u64,
        current_loop: 0u8,
        sequence: None,
        event: m.event,
        fired_count: m.fired_count,
    }
}

/// The state after `stop`: an immediate halt that leaves the current value
/// wherever it was.
pub open spec fn spec_stop<T: Animatable>(m: Motion<T>) -> Motion<T> {
    Motion { running: false, current_loop: 0u8, velocity: T::s_zero(), sequence: None, ..m }
}

/// The state after `reset`: a stop followed by restoring the starting value.
pub open spec fn spec_reset<T: Animatable>(m: Motion<T>) -> Motion<T> {
    Motion { current: m.initial, elapsed: 0u64, ..spec_stop(m) }
}

/// Fire the configuration's completion-callback token, if one is attached.
pub open spec fn spec_fire_config<T: Animatable>(m: Motion<T>) -> Motion<T> {
    match m.config.on_complete {
        Some(tok) => Motion {
            event: Some(tok),
            fired_count: sat_add_u64_spec(m.fired_count as int, 1) as u64,
            ..m
        },
        None => m,
    }
}

/// The loop policy applied when one cycle completes: stop on no loop, restart
/// from the starting value on an infinite loop, and count cycles against a
/// finite bound. Whenever the animation stops here, the configuration's
/// callback token is fired. Returns the new state and whether to continue.
pub open spec fn spec_handle_completion<T: Animatable>(m: Motion<T>) -> (Motion<T>, bool) {
    let lm = match m.config.loop_mode {
        Some(l) => l,
        None => LoopMode::NoLoop,
    };
    match lm {
        LoopMode::NoLoop => (spec_fire_config(Motion { running: false, ..m }), false),
        LoopMode::Infinite => (
            Motion { current: m.initial, elapsed: 0u64, velocity: T::s_zero(), ..m },
            true,
        ),
        LoopMode::Times(c) => {
            if m.current_loop + 1 >= c {
                (spec_fire_config(spec_stop(m)), false)
            } else {
                (
                    Motion {
                        current: m.initial,
                        elapsed: 0u64,
                        velocity: T::s_zero(),
                        current_loop: (m.current_loop + 1) as u8,
                        ..m
                    },
                    true,
                )
            }
        },
    }
}

/// One spring substep (semi-implicit Euler): if both the remaining delta and
/// the velocity are within the completion threshold, snap to the target and
/// finish; otherwise update the velocity from the spring force and then the
/// position from the new velocity.
pub open spec fn spec_spring_substep<T: Animatable>(
    target: T,
    cur: T,
    vel: T,
    sp: Spring,
    step_fp: int,
) -> (T, T, bool) {
    let delta = target.s_sub(cur);
    if delta.s_mag_sq() < EPS_SQ && vel.s_mag_sq() < EPS_SQ {
        (target, T::s_zero(), true)
    } else {
        let force = delta.s_scale(sp.stiffness as int);
        let damping_force = vel.s_scale(sp.damping as int);
        let factor = fp_mul_spec(fp_div_pos_spec(ONE as int, sp.mass as int), step_fp);
        let vel2 = vel.s_add(force.s_sub(damping_force).s_scale(factor));
        let cur2 = cur.s_add(vel2.s_scale(step_fp));
        (cur2, vel2, false)
    }
}

/// `n` spring substeps, stopping early when one reports completion.
pub open spec fn spec_spring_steps<T: Animatable>(
    target: T,
    cur: T,
    vel: T,
    sp: Spring,
    step_fp: int,
    n: nat,
) -> (T, T, bool)
    decreases n,
{
    if n == 0 {
        (cur, vel, false)
    } else {
        let r = spec_spring_substep(target, cur, vel, sp, step_fp);
        if r.2 {
            r
        } else {
            spec_spring_steps(target, r.0, r.1, sp, step_fp, (n - 1) as nat)
        }
    }
}

/// The completion test shared by both integration strategies: completed iff
/// squared velocity and squared remaining delta are both under the threshold;
/// on completion the value snaps exactly to the target and the velocity to
/// zero.
pub open spec fn spec_check_completion<T: Animatable>(target: T, cur: T, vel: T) -> (T, T, bool) {
    if vel.s_mag_sq() < EPS_SQ && target.s_sub(cur).s_mag_sq() < EPS_SQ {
        (target, T::s_zero(), true)
    } else {
        (cur, vel, false)
    }
}

/// A whole spring tick: subdivide `dt` into substeps of at most `SUBSTEP_US`
/// (at least one), run them, and finish with the completion test unless a
/// substep already finished.
pub open spec fn spec_spring_tick<T: Animatable>(
    target: T,
    cur: T,
    vel: T,
    sp: Spring,
    dt: int,
) -> (T, T, bool) {
    let n = if dt / (SUBSTEP_US as int) >= 1 {
        dt / (SUBSTEP_US as int)
    } else {
        1
    };
    let step_fp = dt / n;
    let r = spec_spring_steps(target, cur, vel, sp, step_fp, n as nat);
    if r.2 {
        r
    } else {
        spec_check_completion(target, r.0, r.1)
    }
}

/// Normalized tween progress out of `ONE`: elapsed time over the duration,
/// clamped at `ONE`; a zero duration completes immediately.
pub open spec fn spec_progress(elapsed: int, duration: int) -> int {
    if duration == 0 {
        ONE as int
    } else {
        let p = (elapsed * ONE) / duration;
        if p > ONE {
            ONE as int
        } else {
            p
        }
    }
}

/// A whole tween tick, given the already-accumulated elapsed time: snap to the
/// starting value at progress zero, snap exactly to the target at full
/// progress (completing the cycle), and otherwise interpolate at the eased
/// progress, with exact fast paths when the eased progress is at an end.
pub open spec fn spec_tween_tick<T: Animatable>(
    initial: T,
    target: T,
    elapsed_new: int,
    tw: Tween,
) -> (T, bool) {
    let progress = spec_progress(elapsed_new, tw.duration as int);
    if progress <= 0 {
        (initial, false)
    } else if progress >= ONE {
        (target, true)
    } else {
        let eased = crate::animation::ease_spec(tw.easing, progress);
        if eased == 0 {
            (initial, false)
        } else if eased == ONE {
            (target, false)
        } else {
            (initial.s_lerp(target, eased), false)
        }
    }
}

/// The sequence-advance phase of a tick: when a sequence is installed and the
/// prior step has finished, either start the next step (advancing the cursor)
/// or, after the last step, fire the sequence's one-shot token and stop.
/// Returns the new state and whether the tick ends here (inactive).
pub open spec fn spec_seq_phase<T: Animatable>(m: Motion<T>) -> (Motion<T>, bool) {
    match m.sequence {
        Some(s) => {
            if m.running {
                (m, false)
            } else {
                let len = s.steps@.len() as int;
                if s.current_step < len - 1 {
                    let ns = AnimationSequence {
                        steps: s.steps,
                        current_step: (s.current_step + 1) as usize,
                        on_complete: s.on_complete,
                        capacity_hint: s.capacity_hint,
                    };
                    let step = s.steps@[s.current_step + 1];
                    (
                        Motion {
                            sequence: Some(ns),
                            ..spec_animate_to(m, step.target, step.config)
                        },
                        false,
                    )
                } else if s.current_step == len - 1 {
                    let fired = match s.on_complete {
                        Some(tok) => Motion {
                            event: Some(tok),
                            fired_count: sat_add_u64_spec(m.fired_count as int, 1) as u64,
                            ..m
                        },
                        None => m,
                    };
                    (spec_stop(fired), true)
                } else {
                    (m, false)
                }
            }
        },
        None => (m, false),
    }
}

/// One whole `update` tick, pinning the new state and the returned activity
/// flag: idle records return immediately; then the sequence-advance phase
/// runs; sub-frame deltas are skipped; a pending start delay only accumulates;
/// otherwise the configured integrator advances the value and, on completion,
/// the loop policy is applied.
pub open spec fn spec_update_full<T: Animatable>(m: Motion<T>, dt: u64) -> (Motion<T>, bool) {
    let m0 = Motion { event: None, ..m };
    if !m0.running && m0.sequence is None {
        (m0, false)
    } else {
        let sp = spec_seq_phase(m0);
        if sp.1 {
            (sp.0, false)
        } else {
            let m1 = sp.0;
            if dt < MIN_DELTA_US {
                (m1, true)
            } else if m1.delay_elapsed < m1.config.delay {
                (
                    Motion {
                        delay_elapsed: sat_add_u64_spec(m1.delay_elapsed as int, dt as int) as u64,
                        ..m1
                    },
                    true,
                )
            } else {
                let stepped = match m1.config.mode {
                    AnimationMode::Spring(spg) => {
                        let t = spec_spring_tick(m1.target, m1.current, m1.velocity, spg, dt as int);
                        (Motion { current: t.0, velocity: t.1, ..m1 }, t.2)
                    },
                    AnimationMode::Tween(tw) => {
                        let e2 = sat_add_u64_spec(m1.elapsed as int, dt as int) as u64;
                        let t = spec_tween_tick(m1.initial, m1.target, e2 as int, tw);
                        (Motion { current: t.0, elapsed: e2, ..m1 }, t.1)
                    },
                };
                if stepped.1 {
                    spec_handle_completion(stepped.0)
                } else {
                    (stepped.0, true)
                }
            }
        }
    }
}

/// The state after one `update` tick.
pub open spec fn spec_update<T: Animatable>(m: Motion<T>, dt: u64) -> Motion<T> {
    spec_update_full(m, dt).0
}

/// Whether one `update` tick reports the animation still active.
pub open spec fn spec_update_active<T: Animatable>(m: Motion<T>, dt: u64) -> bool {
    spec_update_full(m, dt).1
}

impl<T: Animatable> Motion<T> {
    /// Creates an idle record holding `initial` as its current, target and
    /// starting value.
    pub fn new(initial: T) -> (r: Motion<T>)
        requires
            initial.inv(),
        ensures
            r == (Motion {
                current: initial,
                target: initial,
                initial,
                velocity: T::s_zero(),
                config: AnimationConfig {
                    mode: AnimationMode::Tween(
                        Tween {
                            duration: crate::animation::DEFAULT_TWEEN_DURATION,
                            easing: Easing::Linear,
                        },
                    ),
                    loop_mode: None::<LoopMode>,
                    delay: 0u64,
                    on_complete: None::<u64>,
                },
                running: false,
                elapsed: 0u64,
                delay_elapsed: 0u64,
                current_loop: 0u8,
                sequence: None::<AnimationSequence<T>>,
                event: None::<u64>,
                fired_count: 0u64,
            }),
            r.inv(),
    {
        proof {
            T::lemma_zero_inv();
        }
        Motion {
            current: initial,
            target: initial,
            initial,
            velocity: T::zero(),
            config: AnimationConfig::default(),
            running: false,
            elapsed: 0,
            delay_elapsed: 0,
            current_loop: 0,
            sequence: None,
            event: None,
            fired_count: 0,
        }
    }

    /// Starts an animation toward `target` driven by `config`: cancels any
    /// active sequence, snapshots the starting value from the current one and
    /// restarts all per-animation accounting.
    pub fn animate_to(&mut self, target: T, config: AnimationConfig)
        requires
            old(self).inv(),
            target.inv(),
            config.wf(),
        ensures
            *final(self) == spec_animate_to(*old(self), target, config),
            final(self).inv(),
    {
        proof {
            T::lemma_zero_inv();
        }
        self.sequence = None;
        self.initial = self.current;
        self.target = target;
        self.config = config;
        self.running = true;
        self.elapsed = 0;
        self.delay_elapsed = 0;
        self.velocity = T::zero();
        self.current_loop = 0;
    }

    /// Loads a sequence: starts its first step and retains the sequence so
    /// completed steps advance to the next. An empty sequence is a no-op.
    pub fn animate_sequence(&mut self, sequence: AnimationSequence<T>)
        requires
            old(self).inv(),
            sequence.wf(),
            sequence.cursor_ok(),
        ensures
            sequence.steps@.len() == 0 ==> *final(self) == *old(self),
            sequence.steps@.len() > 0 ==> *final(self) == (Motion {
                sequence: Some(sequence),
                ..spec_animate_to(
                    *old(self),
                    sequence.steps@[0].target,
                    sequence.steps@[0].config,
                )
            }),
            final(self).inv(),
    {
        if sequence.steps.len() > 0 {
            let target = sequence.steps[0].target;
            let config = sequence.steps[0].config;
            self.animate_to(target, config);
            self.sequence = Some(sequence);
        }
    }

    /// The current interpolated value.
    pub fn value(&self) -> (r: T)
        ensures
            r == self.current,
    {
        self.current
    }

    /// Whether the record is still animating or holds a pending sequence.
    pub fn is_running(&self) -> (r: bool)
        ensures
            r == (self.running || self.sequence is Some),
    {
        self.running || self.sequence.is_some()
    }

    /// Stops, then restores the starting value.
    pub fn reset(&mut self)
        requires
            old(self).inv(),
        ensures
            *final(self) == spec_reset(*old(self)),
            final(self).inv(),
    {
        self.stop();
        self.current = self.initial;
        self.elapsed = 0;
    }

    /// An immediate, idempotent halt: the current value stays wherever it was.
    pub fn stop(&mut self)
        requires
            old(self).inv(),
        ensures
            *final(self) == spec_stop(*old(self)),
            final(self).inv(),
    {
        proof {
            T::lemma_zero_inv();
        }
        self.running = false;
        self.current_loop = 0;
        self.velocity = T::zero();
        self.sequence = None;
    }

    /// Sets a pre-start delay (in microseconds) without otherwise altering the
    /// record.
    pub fn delay(&mut self, duration: u64)
        requires
            old(self).inv(),
        ensures
            *final(self) == (Motion {
                config: AnimationConfig { delay: duration, ..old(self).config },
                ..*old(self)
            }),
            final(self).inv(),
    {
        self.config = AnimationConfig { delay: duration, ..self.config };
    }

    /// Takes the callback token fired by the most recent tick, if any; the
    /// host dispatches the handler registered under it.
    pub fn take_event(&mut self) -> (r: Option<u64>)
        ensures
            r == old(self).event,
            *final(self) == (Motion { event: None, ..*old(self) }),
    {
        self.event.take()
    }

    /// Advances the animation by `dt` microseconds and reports whether it is
    /// still active (keep polling). The entire transition is pinned by
    /// [`spec_update`]; see there for the tick's phases.
    pub fn update(&mut self, dt: u64) -> (active: bool)
        requires
            old(self).inv(),
            dt <= MAX_DT_US,
        ensures
            *final(self) == spec_update(*old(self), dt),
            active == spec_update_active(*old(self), dt),
            final(self).inv(),
    {
        self.event = None;
        if !self.running && self.sequence.is_none() {
            return false;
        }
        if !self.running && self.sequence.is_some() {
            let s = self.sequence.take().unwrap();
            let len = s.steps.len();
            if s.current_step + 1 < len {
                let ncur = s.current_step + 1;
                let target = s.steps[ncur].target;
                let config = s.steps[ncur].config;
                let ns = AnimationSequence {
                    steps: s.steps,
                    current_step: ncur,
                    on_complete: s.on_complete,
                    capacity_hint: s.capacity_hint,
                };
                self.animate_to(target, config);
                self.sequence = Some(ns);
            } else if s.current_step + 1 == len {
                if let Some(tok) = s.on_complete {
                    self.event = Some(tok);
                    self.fired_count = sat_inc(self.fired_count);
                }
                self.stop();
                return false;
            } else {
                self.sequence = Some(s);
            }
        }
        if dt < MIN_DELTA_US {
            return true;
        }
        if self.delay_elapsed < self.config.delay {
            self.delay_elapsed = sat_add_u64(self.delay_elapsed, dt);
            return true;
        }
        let completed = match self.config.mode {
            AnimationMode::Spring(spring) => self.update_spring(spring, dt),
            AnimationMode::Tween(tween) => self.update_tween(tween, dt),
        };
        if completed {
            self.handle_completion()
        } else {
            true
        }
    }

    /// Runs the fixed-substep semi-implicit Euler spring integrator for `dt`.
    fn update_spring(&mut self, spring: Spring, dt: u64) -> (done: bool)
        requires
            old(self).inv(),
            spring.wf(),
            dt <= MAX_DT_US,
        ensures
            ({
                let t = spec_spring_tick(
                    old(self).target,
                    old(self).current,
                    old(self).velocity,
                    spring,
                    dt as int,
                );
                *final(self) == (Motion { current: t.0, velocity: t.1, ..*old(self) }) && done
                    == t.2
            }),
            final(self).inv(),
    {
        proof {
            T::lemma_zero_inv();
        }
        let mut n: u64 = dt / SUBSTEP_US;
        if n == 0 {
            n = 1;
        }
        proof {
            assert(n as int == (if dt as int / (SUBSTEP_US as int) >= 1 {
                dt as int / (SUBSTEP_US as int)
            } else {
                1
            }));
            vstd::arithmetic::div_mod::lemma_div_is_ordered_by_denominator(dt as int, 1, n as int);
        }
        let step_dt: u64 = dt / n;
        let step_fp: i64 = step_dt as i64;
        let mass_inv: i64 = fp_div_pos(ONE, spring.mass);
        let factor: i64 = fp_mul(mass_inv, step_fp);
        let ghost tgt = self.target;
        let ghost cur0 = self.current;
        let ghost vel0 = self.velocity;
        let mut i: u64 = 0;
        while i < n
            invariant
                0 <= i <= n,
                1 <= n,
                old(self).inv(),
                dt <= MAX_DT_US,
                n as int == (if dt as int / (SUBSTEP_US as int) >= 1 {
                    dt as int / (SUBSTEP_US as int)
                } else {
                    1
                }),
                tgt == old(self).target,
                cur0 == old(self).current,
                vel0 == old(self).velocity,
                self.target == tgt,
                tgt.inv(),
                self.current.inv(),
                self.velocity.inv(),
                spring.wf(),
                step_fp as int == dt as int / n as int,
                0 <= step_fp <= FP_MAX,
                factor as int == fp_mul_spec(
                    fp_div_pos_spec(ONE as int, spring.mass as int),
                    step_fp as int,
                ),
                -FP_MAX <= factor <= FP_MAX,
                *self == (Motion { current: self.current, velocity: self.velocity, ..*old(self) }),
                spec_spring_steps(tgt, cur0, vel0, spring, step_fp as int, n as nat)
                    == spec_spring_steps(
                    tgt,
                    self.current,
                    self.velocity,
                    spring,
                    step_fp as int,
                    (n - i) as nat,
                ),
            decreases n - i,
        {
            let ghost cur_i = self.current;
            let ghost vel_i = self.velocity;
            let delta = self.target.sub(&self.current);
            proof {
                T::lemma_zero_inv();
                self.target.lemma_ops_inv(self.current, 0, 0);
                delta.lemma_ops_inv(self.velocity, factor as int, 0);
                self.velocity.lemma_ops_inv(delta, spring.damping as int, 0);
            }
            if delta.magnitude_sq() < EPS_SQ && self.velocity.magnitude_sq() < EPS_SQ {
                proof {
                    assert(spec_spring_steps(
                        tgt,
                        cur_i,
                        vel_i,
                        spring,
                        step_fp as int,
                        (n - i) as nat,
                    ) == (tgt, T::s_zero(), true));
                }
                self.current = self.target;
                self.velocity = T::zero();
                return true;
            }
            let force = delta.scale(spring.stiffness);
            let damping_force = self.velocity.scale(spring.damping);
            proof {
                delta.lemma_ops_inv(delta, spring.stiffness as int, 0);
                force.lemma_ops_inv(damping_force, 0, 0);
                force.s_sub(damping_force).lemma_ops_inv(force, factor as int, 0);
                self.velocity.lemma_ops_inv(force.s_sub(damping_force).s_scale(factor as int), 0, 0);
            }
            let accel = force.sub(&damping_force).scale(factor);
            self.velocity = self.velocity.add(&accel);
            proof {
                self.velocity.lemma_ops_inv(self.velocity, step_fp as int, 0);
                self.current.lemma_ops_inv(self.velocity.s_scale(step_fp as int), 0, 0);
            }
            let dv = self.velocity.scale(step_fp);
            self.current = self.current.add(&dv);
            proof {
                let sub = spec_spring_substep(tgt, cur_i, vel_i, spring, step_fp as int);
                assert(!sub.2);
                assert(self.current == sub.0 && self.velocity == sub.1);
                assert(spec_spring_steps(tgt, cur_i, vel_i, spring, step_fp as int, (n - i) as nat)
                    == spec_spring_steps(
                    tgt,
                    sub.0,
                    sub.1,
                    spring,
                    step_fp as int,
                    (n - i - 1) as nat,
                ));
            }
            i = i + 1;
        }
        self.check_spring_completion()
    }

    /// The completion test shared by the integration strategies: on
    /// completion, the value snaps exactly to the target and the velocity to
    /// zero, eliminating asymptotic creep.
    fn check_spring_completion(&mut self) -> (done: bool)
        requires
            old(self).inv(),
        ensures
            ({
                let t = spec_check_completion(old(self).target, old(self).current, old(self).velocity);
                *final(self) == (Motion { current: t.0, velocity: t.1, ..*old(self) }) && done
                    == t.2
            }),
            final(self).inv(),
    {
        proof {
            T::lemma_zero_inv();
            self.target.lemma_ops_inv(self.current, 0, 0);
        }
        let vsq = self.velocity.magnitude_sq();
        let delta = self.target.sub(&self.current);
        let dsq = delta.magnitude_sq();
        if vsq < EPS_SQ && dsq < EPS_SQ {
            self.current = self.target;
            self.velocity = T::zero();
            true
        } else {
            false
        }
    }

    /// Runs the tween progress function for `dt`, interpolating from the
    /// starting value toward the target at the eased progress.
    fn update_tween(&mut self, tween: Tween, dt: u64) -> (done: bool)
        requires
            old(self).inv(),
        ensures
            ({
                let e2 = sat_add_u64_spec(old(self).elapsed as int, dt as int);
                let t = spec_tween_tick(old(self).initial, old(self).target, e2, tween);
                *final(self) == (Motion { current: t.0, elapsed: e2 as u64, ..*old(self) })
                    && done == t.1
            }),
            final(self).inv(),
    {
        self.elapsed = sat_add_u64(self.elapsed, dt);
        let progress: i64 = if tween.duration == 0 {
            ONE
        } else {
            let p128: u128 = (self.elapsed as u128 * ONE as u128) / (tween.duration as u128);
            if p128 > ONE as u128 {
                ONE
            } else {
                p128 as i64
            }
        };
        if progress <= 0 {
            self.current = self.initial;
            return false;
        }
        if progress >= ONE {
            self.current = self.target;
            return true;
        }
        let eased = tween.easing.eval(progress);
        if eased == 0 {
            self.current = self.initial;
        } else if eased == ONE {
            self.current = self.target;
        } else {
            proof {
                self.initial.lemma_ops_inv(self.target, 0, eased as int);
            }
            self.current = self.initial.interpolate(&self.target, eased);
        }
        false
    }

    /// Applies the loop policy after a completed cycle; fires the
    /// configuration's callback token whenever the animation stops here.
    fn handle_completion(&mut self) -> (should_continue: bool)
        requires
            old(self).inv(),
        ensures
            *final(self) == spec_handle_completion(*old(self)).0,
            should_continue == spec_handle_completion(*old(self)).1,
            final(self).inv(),
    {
        proof {
            T::lemma_zero_inv();
        }
        let lm = match self.config.loop_mode {
            Some(l) => l,
            None => LoopMode::NoLoop,
        };
        let should_continue: bool = match lm {
            LoopMode::NoLoop => {
                self.running = false;
                false
            },
            LoopMode::Infinite => {
                self.current = self.initial;
                self.elapsed = 0;
                self.velocity = T::zero();
                true
            },
            LoopMode::Times(count) => {
                if self.current_loop as u16 + 1 >= count as u16 {
                    self.stop();
                    false
                } else {
                    self.current_loop = self.current_loop + 1;
                    self.current = self.initial;
                    self.elapsed = 0;
                    self.velocity = T::zero();
                    true
                }
            },
        };
        if !should_continue {
            if let Some(tok) = self.config.on_complete {
                self.event = Some(tok);
                self.fired_count = sat_inc(self.fired_count);
            }
        }
        should_continue
    }
}

} // verus!
