//! Tests of the motion engine: tween boundaries, springs, loops, delays and
//! sequences, driven through the public API on fixed-point scalar values.

use motion::animatable::Animatable;
use motion::fixed::ONE;
use motion::{
    AnimationConfig, AnimationMode, AnimationSequence, AnimationState, Easing, LoopMode, Motion,
    Spring, Tween,
};

fn tween_cfg(duration: u64) -> AnimationConfig {
    AnimationConfig::new(AnimationMode::Tween(Tween::new(duration)))
}

#[test]
fn tween_reaches_target_exactly() {
    let mut m: Motion<i64> = Motion::new(0);
    m.animate_to(1_000_000, tween_cfg(300_000));
    assert!(m.update(100_000));
    assert_eq!(m.value(), 333_333); // progress one third, linear easing
    assert!(m.update(100_000));
    assert_eq!(m.value(), 666_666);
    assert!(!m.update(100_000));
    assert_eq!(m.value(), 1_000_000); // exact, no numeric creep
    assert!(!m.is_running());
}

#[test]
fn tween_overshoot_dt_still_exact() {
    let mut m: Motion<i64> = Motion::new(250_000);
    m.animate_to(-400_000, tween_cfg(50_000));
    assert!(!m.update(5_000_000));
    assert_eq!(m.value(), -400_000);
    assert!(!m.is_running());
}

#[test]
fn zero_duration_tween_completes_on_first_update() {
    let mut m: Motion<i64> = Motion::new(0);
    m.animate_to(777_000, tween_cfg(0));
    assert!(!m.update(5_000));
    assert_eq!(m.value(), 777_000);
    assert!(!m.is_running());
}

#[test]
fn sub_frame_delta_is_skipped() {
    let mut m: Motion<i64> = Motion::new(0);
    m.animate_to(ONE, tween_cfg(300_000));
    assert!(m.update(1_000)); // below the 1/240 s threshold: no numeric work
    assert_eq!(m.value(), 0);
    assert_eq!(m.elapsed, 0);
    assert!(m.is_running());
}

#[test]
fn spring_converges_and_snaps_exactly() {
    let mut m: Motion<i64> = Motion::new(0);
    m.animate_to(1_000_000, AnimationConfig::new(AnimationMode::Spring(Spring::default())));
    let mut ticks: u32 = 0;
    while m.is_running() && ticks < 3000 {
        m.update(8_333);
        ticks += 1;
    }
    assert!(!m.is_running(), "spring did not settle within the tick budget");
    assert_eq!(m.value(), 1_000_000); // snapped exactly to the target
    assert_eq!(m.velocity, 0); // velocity snapped exactly to zero
}

#[test]
fn spring_moves_toward_target() {
    let mut m: Motion<i64> = Motion::new(0);
    m.animate_to(1_000_000, AnimationConfig::new(AnimationMode::Spring(Spring::default())));
    m.update(8_333);
    let after_one = m.value();
    assert!(after_one > 0);
    m.update(8_333);
    assert!(m.value() > after_one);
}

#[test]
fn stop_is_idempotent() {
    let mut m: Motion<i64> = Motion::new(100_000);
    m.animate_to(900_000, tween_cfg(200_000));
    m.update(100_000);
    m.stop();
    let held = m.value();
    assert!(!m.is_running());
    m.stop();
    assert_eq!(m.value(), held);
    assert!(!m.is_running());
}

#[test]
fn reset_restores_initial() {
    let mut m: Motion<i64> = Motion::new(200_000);
    m.animate_to(1_000_000, tween_cfg(300_000));
    m.update(100_000);
    m.update(50_000);
    m.reset();
    assert_eq!(m.value(), 200_000); // the value captured when animate_to ran
    assert!(!m.is_running());
}

#[test]
fn reset_uses_value_at_animate_to_time() {
    let mut m: Motion<i64> = Motion::new(0);
    m.animate_to(600_000, tween_cfg(100_000));
    m.update(100_000);
    assert_eq!(m.value(), 600_000);
    m.animate_to(0, tween_cfg(100_000));
    m.update(50_000);
    m.reset();
    assert_eq!(m.value(), 600_000); // snapshot from the second animate_to
}

#[test]
fn loop_times_three_fires_once_at_the_end() {
    let mut m: Motion<i64> = Motion::new(0);
    let cfg = tween_cfg(100_000).with_loop(LoopMode::Times(3)).with_on_complete(7);
    m.animate_to(ONE, cfg);

    assert!(m.update(100_000)); // first cycle ends, loop continues
    assert!(m.is_running());
    assert_eq!(m.take_event(), None);
    assert_eq!(m.value(), 0); // restarted from the initial value

    assert!(m.update(100_000)); // second cycle
    assert!(m.is_running());
    assert_eq!(m.take_event(), None);

    assert!(!m.update(100_000)); // third cycle: stop and fire
    assert!(!m.is_running());
    assert_eq!(m.take_event(), Some(7));
    assert_eq!(m.take_event(), None); // one-shot: drained
    assert_eq!(m.fired_count, 1);
}

#[test]
fn infinite_loop_keeps_running_and_never_fires() {
    let mut m: Motion<i64> = Motion::new(0);
    let cfg = tween_cfg(100_000).with_loop(LoopMode::Infinite).with_on_complete(9);
    m.animate_to(ONE, cfg);
    for _ in 0..5 {
        assert!(m.update(100_000));
        assert!(m.is_running());
        assert_eq!(m.take_event(), None);
        assert_eq!(m.value(), 0); // each cycle restarts from the initial value
    }
    assert_eq!(m.fired_count, 0);
}

#[test]
fn no_loop_completion_fires_config_token() {
    let mut m: Motion<i64> = Motion::new(0);
    m.animate_to(ONE, tween_cfg(100_000).with_on_complete(11));
    assert!(!m.update(100_000));
    assert_eq!(m.take_event(), Some(11));
    assert_eq!(m.fired_count, 1);
}

#[test]
fn sequence_advances_in_order_and_fires_at_the_end() {
    let cfg = tween_cfg(100_000);
    let seq: AnimationSequence<i64> = AnimationSequence::new()
        .then(250_000, cfg)
        .then(500_000, cfg)
        .then(750_000, cfg)
        .on_complete(42);

    let mut m: Motion<i64> = Motion::new(0);
    m.animate_sequence(seq);
    assert!(m.is_running());
    assert_eq!(m.target, 250_000); // step one first

    m.update(100_000); // step one completes
    assert_eq!(m.value(), 250_000);
    assert!(m.is_running()); // sequence still pending
    assert_eq!(m.take_event(), None);

    m.update(100_000); // advances to step two, which then completes
    assert_eq!(m.target, 500_000); // the next step, not the last
    assert_eq!(m.value(), 500_000);
    assert_eq!(m.take_event(), None);

    m.update(100_000); // advances to step three, which then completes
    assert_eq!(m.target, 750_000);
    assert_eq!(m.value(), 750_000);
    assert_eq!(m.take_event(), None);

    assert!(!m.update(100_000)); // past the last step: fire and stop
    assert_eq!(m.take_event(), Some(42));
    assert!(!m.is_running());
    assert_eq!(m.value(), 750_000);
}

#[test]
fn empty_sequence_is_a_no_op() {
    let mut m: Motion<i64> = Motion::new(123);
    m.animate_sequence(AnimationSequence::new());
    assert!(!m.is_running());
    assert_eq!(m.value(), 123);
}

#[test]
fn stop_cancels_a_pending_sequence() {
    let cfg = tween_cfg(100_000);
    let seq: AnimationSequence<i64> = AnimationSequence::new().then(ONE, cfg).then(0, cfg);
    let mut m: Motion<i64> = Motion::new(0);
    m.animate_sequence(seq);
    m.stop();
    assert!(!m.is_running());
    assert!(!m.update(100_000));
}

#[test]
fn sequence_midpoint_hints() {
    let cfg = tween_cfg(100_000);
    let seq: AnimationSequence<i64> =
        AnimationSequence::new().then(250_000, cfg).then(500_000, cfg);
    assert_eq!(seq.steps[0].predicted_next, None);
    assert_eq!(seq.steps[1].predicted_next, Some(375_000)); // midpoint of the two targets
}

#[test]
fn batch_steps_appends_with_hints() {
    let cfg = tween_cfg(50_000);
    let seq: AnimationSequence<i64> =
        AnimationSequence::new().batch_steps(vec![(100_000, cfg), (300_000, cfg)]);
    assert_eq!(seq.steps.len(), 2);
    assert_eq!(seq.steps[0].target, 100_000);
    assert_eq!(seq.steps[0].predicted_next, None);
    assert_eq!(seq.steps[1].target, 300_000);
    assert_eq!(seq.steps[1].predicted_next, Some(200_000));
}

#[test]
fn sequence_capacity_and_reserve() {
    let mut seq: AnimationSequence<i64> = AnimationSequence::with_capacity(4);
    assert_eq!(seq.capacity_hint, 4);
    assert_eq!(seq.steps.len(), 0);
    seq.reserve(8);
    assert_eq!(seq.steps.len(), 0);
}

#[test]
fn delay_gates_the_animation() {
    let mut m: Motion<i64> = Motion::new(0);
    m.animate_to(ONE, tween_cfg(100_000).with_delay(50_000));
    for _ in 0..4 {
        assert!(m.update(10_000)); // 40_000 accumulated, still short of the delay
        assert_eq!(m.value(), 0);
        assert!(m.is_running());
    }
    assert!(m.update(20_000)); // the crossing tick only accounts time
    assert_eq!(m.value(), 0);
    assert!(m.update(50_000)); // delay served: half the tween elapses
    assert_eq!(m.value(), 500_000);
}

#[test]
fn delay_method_updates_config_only() {
    let mut m: Motion<i64> = Motion::new(5);
    m.delay(30_000);
    assert_eq!(m.config.delay, 30_000);
    assert!(!m.is_running());
    assert_eq!(m.value(), 5);
}

#[test]
fn interpolation_endpoints_scalar() {
    let a: i64 = -123_456;
    let b: i64 = 789_000;
    assert_eq!(a.interpolate(&b, 0), a);
    assert_eq!(a.interpolate(&b, ONE), b);
}

#[test]
fn eased_tween_hits_exact_midpoint() {
    let mut m: Motion<i64> = Motion::new(0);
    m.animate_to(ONE, tween_cfg(100_000));
    m.update(50_000);
    assert_eq!(m.value(), 500_000); // linear easing at half progress
}

#[test]
fn quadratic_easings_are_exact() {
    assert_eq!(Easing::Linear.eval(300_000), 300_000);
    assert_eq!(Easing::QuadIn.eval(500_000), 250_000);
    assert_eq!(Easing::QuadOut.eval(500_000), 750_000);
    assert_eq!(Easing::QuadInOut.eval(250_000), 125_000);
    for e in [Easing::Linear, Easing::QuadIn, Easing::QuadOut, Easing::QuadInOut] {
        assert_eq!(e.eval(0), 0);
        assert_eq!(e.eval(ONE), ONE);
    }
}

#[test]
fn tween_with_quadratic_easing_in_motion() {
    let cfg = AnimationConfig::new(AnimationMode::Tween(
        Tween::new(100_000).with_easing(Easing::QuadIn),
    ));
    let mut m: Motion<i64> = Motion::new(0);
    m.animate_to(ONE, cfg);
    m.update(50_000);
    assert_eq!(m.value(), 250_000); // eased progress is one quarter
}

#[test]
fn spring_constructor_clamps_mass() {
    let s = Spring::new(50_000_000, 5_000_000, 0);
    assert!(s.mass >= 1); // non-positive mass is clamped up
    assert_eq!(s.stiffness, 50_000_000);
    assert_eq!(s.damping, 5_000_000);
}

#[test]
fn animation_states_are_distinct() {
    assert_ne!(AnimationState::Idle, AnimationState::Running);
    assert_ne!(AnimationState::Running, AnimationState::Completed);
    assert_eq!(AnimationState::Idle, AnimationState::Idle);
}

#[test]
fn animate_to_cancels_sequence() {
    let cfg = tween_cfg(100_000);
    let seq: AnimationSequence<i64> = AnimationSequence::new().then(ONE, cfg).then(0, cfg);
    let mut m: Motion<i64> = Motion::new(0);
    m.animate_sequence(seq);
    m.animate_to(42_000, cfg);
    m.update(100_000);
    assert_eq!(m.value(), 42_000);
    assert!(!m.is_running()); // the sequence is gone
}
