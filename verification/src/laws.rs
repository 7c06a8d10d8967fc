//! Laws of the animation engine, proved over the spec transition functions
//! that pin down [`crate::Motion::update`] and its companions.

use vstd::prelude::*;

use crate::animatable::Animatable;
use crate::animation::{AnimationConfig, AnimationMode, LoopMode, Spring, Tween};
use crate::fixed::ONE;
use crate::{
    spec_animate_to, spec_reset, spec_spring_steps, spec_spring_tick, spec_stop, spec_update,
    spec_update_active, AnimationSequence, Motion, MIN_DELTA_US, SUBSTEP_US,
};

verus! {

/// The state after a run of `update` ticks, one per element.
pub open spec fn spec_updates<T: Animatable>(m: Motion<T>, dts: Seq<u64>) -> Motion<T>
    decreases dts.len(),
{
    if dts.len() == 0 {
        m
    } else {
        spec_updates(spec_update(m, dts[0]), dts.subrange(1, dts.len() as int))
    }
}

/// The cumulative time of a run of ticks.
pub open spec fn sum_dts(dts: Seq<u64>) -> int
    decreases dts.len(),
{
    if dts.len() == 0 {
        0
    } else {
        dts[0] + sum_dts(dts.subrange(1, dts.len() as int))
    }
}

proof fn lemma_sum_nonneg(dts: Seq<u64>)
    ensures
        sum_dts(dts) >= 0,
    decreases dts.len(),
{
    if dts.len() > 0 {
        lemma_sum_nonneg(dts.subrange(1, dts.len() as int));
    }
}

/// An idle record (not running, no sequence) is left unchanged by any run of
/// ticks, except that the event outbox drains.
pub proof fn lemma_idle_updates<T: Animatable>(m: Motion<T>, dts: Seq<u64>)
    requires
        !m.running,
        m.sequence is None,
    ensures
        ({
            let m2 = spec_updates(m, dts);
            &&& m2.current == m.current
            &&& m2.initial == m.initial
            &&& m2.target == m.target
            &&& !m2.running
            &&& m2.sequence is None
            &&& m2.fired_count == m.fired_count
        }),
    decreases dts.len(),
{
    if dts.len() > 0 {
        lemma_idle_updates(spec_update(m, dts[0]), dts.subrange(1, dts.len() as int));
    }
}

/// Calling `stop` on an already-stopped record leaves everything unchanged,
/// and a stop never moves the current value.
pub proof fn lemma_stop_idempotent<T: Animatable>(m: Motion<T>)
    ensures
        spec_stop(spec_stop(m)) == spec_stop(m),
        spec_stop(m).current == m.current,
        !spec_stop(m).running,
        spec_stop(m).sequence is None,
{
}

/// One tick without a sequence never changes the starting value and never
/// installs a sequence.
proof fn lemma_update_preserves_initial<T: Animatable>(m: Motion<T>, dt: u64)
    requires
        m.sequence is None,
    ensures
        spec_update(m, dt).initial == m.initial,
        spec_update(m, dt).sequence is None,
{
}

/// After any number of ticks of a sequence-free record, `reset` restores the
/// starting value the record held before them.
pub proof fn lemma_reset_restores_initial<T: Animatable>(m: Motion<T>, dts: Seq<u64>)
    requires
        m.sequence is None,
    ensures
        spec_updates(m, dts).initial == m.initial,
        spec_updates(m, dts).sequence is None,
        spec_reset(spec_updates(m, dts)).current == m.initial,
    decreases dts.len(),
{
    if dts.len() > 0 {
        lemma_update_preserves_initial(m, dts[0]);
        lemma_reset_restores_initial(spec_update(m, dts[0]), dts.subrange(1, dts.len() as int));
    }
}

/// After `animate_to` and any number of ticks, `reset` restores the value the
/// record showed when `animate_to` was called.
pub proof fn lemma_reset_after_animate_to<T: Animatable>(
    m: Motion<T>,
    target: T,
    config: AnimationConfig,
    dts: Seq<u64>,
)
    ensures
        spec_reset(spec_updates(spec_animate_to(m, target, config), dts)).current == m.current,
{
    lemma_reset_restores_initial(spec_animate_to(m, target, config), dts);
}

/// While the accumulated tick time falls short of the configured start delay,
/// ticks only account time: the value stays where it was, the record keeps
/// running, and nothing else of it changes.
pub proof fn lemma_delay_gating_run<T: Animatable>(m: Motion<T>, dts: Seq<u64>)
    requires
        m.running,
        m.sequence is None,
        m.delay_elapsed + sum_dts(dts) < m.config.delay,
    ensures
        ({
            let m2 = spec_updates(m, dts);
            &&& m2.current == m.current
            &&& m2.initial == m.initial
            &&& m2.target == m.target
            &&& m2.config == m.config
            &&& m2.running
            &&& m2.sequence is None
            &&& m2.delay_elapsed <= m.delay_elapsed + sum_dts(dts)
        }),
    decreases dts.len(),
{
    if dts.len() > 0 {
        let rest = dts.subrange(1, dts.len() as int);
        lemma_sum_nonneg(rest);
        let m1 = spec_update(m, dts[0]);
        lemma_delay_gating_run(m1, rest);
    }
}

/// With a configured delay, the value stays at the starting value for every
/// run of ticks whose cumulative time is below the delay.
pub proof fn lemma_delay_gating<T: Animatable>(m: Motion<T>, dts: Seq<u64>)
    requires
        m.running,
        m.sequence is None,
        m.current == m.initial,
        m.delay_elapsed == 0,
        sum_dts(dts) < m.config.delay,
    ensures
        spec_updates(m, dts).current == m.initial,
        spec_updates(m, dts).running,
{
    lemma_delay_gating_run(m, dts);
}

/// A record mid-flight in a plain (no-loop, delay already served) tween.
pub open spec fn tween_running<T: Animatable>(m: Motion<T>, tw: Tween) -> bool {
    &&& m.running
    &&& m.sequence is None
    &&& m.config.mode == AnimationMode::Tween(tw)
    &&& m.delay_elapsed >= m.config.delay
    &&& (m.config.loop_mode is None || m.config.loop_mode == Some(LoopMode::NoLoop))
}

/// Progress reaches `ONE` exactly when the accumulated time reaches the
/// duration.
proof fn lemma_progress_boundary(e2: int, d: int)
    requires
        0 < d,
        0 <= e2,
    ensures
        e2 >= d ==> crate::spec_progress(e2, d) == ONE,
        e2 < d ==> crate::spec_progress(e2, d) < ONE,
        crate::spec_progress(e2, d) >= 0,
{
    let p = (e2 * ONE) / d;
    vstd::arithmetic::div_mod::lemma_div_pos_is_pos(e2 * ONE, d);
    if e2 >= d {
        assert(e2 * ONE >= d * ONE) by (nonlinear_arith)
            requires
                e2 >= d,
                0 < ONE,
        ;
        vstd::arithmetic::div_mod::lemma_div_is_ordered(d * (ONE as int), e2 * ONE, d);
        vstd::arithmetic::div_mod::lemma_div_by_multiple(ONE as int, d);
        assert(d * ONE == ONE * d) by (nonlinear_arith);
    } else {
        vstd::arithmetic::div_mod::lemma_fundamental_div_mod(e2 * ONE, d);
        if p >= ONE {
            assert(p * d >= ONE * d) by (nonlinear_arith)
                requires
                    p >= ONE,
                    d > 0,
            ;
            assert(e2 * ONE >= ONE * d);
            assert(e2 >= d) by (nonlinear_arith)
                requires
                    e2 * ONE >= ONE * d,
                    ONE > 0,
            ;
        }
    }
}

/// One tick of a plain running tween: if the accumulated time reaches the
/// duration the value snaps exactly to the target and the record stops;
/// otherwise it keeps running with the time accounted.
pub proof fn lemma_tween_step<T: Animatable>(m: Motion<T>, tw: Tween, dt: u64)
    requires
        tween_running(m, tw),
        tw.duration > 0,
        MIN_DELTA_US <= dt,
    ensures
        ({
            let m2 = spec_update(m, dt);
            if m.elapsed + dt >= tw.duration {
                &&& m2.current == m.target
                &&& !m2.running
                &&& m2.sequence is None
            } else {
                &&& tween_running(m2, tw)
                &&& m2.elapsed == m.elapsed + dt
                &&& m2.target == m.target
                &&& m2.initial == m.initial
                &&& m2.config == m.config
            }
        }),
{
    let e2 = crate::fixed::sat_add_u64_spec(m.elapsed as int, dt as int);
    lemma_progress_boundary(e2, tw.duration as int);
}

/// A run of ticks of a plain running tween whose cumulative time reaches the
/// positive duration ends with the value exactly at the target and the record
/// stopped.
proof fn lemma_tween_boundary_rec<T: Animatable>(m: Motion<T>, tw: Tween, dts: Seq<u64>)
    requires
        tween_running(m, tw),
        tw.duration > 0,
        m.elapsed < tw.duration,
        m.elapsed + sum_dts(dts) >= tw.duration,
        forall|i: int| 0 <= i < dts.len() ==> MIN_DELTA_US <= #[trigger] dts[i],
    ensures
        ({
            let m2 = spec_updates(m, dts);
            &&& m2.current == m.target
            &&& !m2.running
            &&& m2.sequence is None
        }),
    decreases dts.len(),
{
    lemma_sum_nonneg(dts);
    let rest = dts.subrange(1, dts.len() as int);
    lemma_sum_nonneg(rest);
    let dt = dts[0];
    lemma_tween_step(m, tw, dt);
    let m1 = spec_update(m, dt);
    if m.elapsed + dt >= tw.duration {
        lemma_idle_updates(m1, rest);
    } else {
        assert(forall|i: int| 0 <= i < rest.len() ==> MIN_DELTA_US <= #[trigger] rest[i]);
        lemma_tween_boundary_rec(m1, tw, rest);
    }
}

/// For any target and any tween of positive duration, a run of ticks whose
/// cumulative time reaches the duration yields the target exactly, and the
/// record reports not running afterward (absent looping).
pub proof fn lemma_tween_boundary<T: Animatable>(m: Motion<T>, tw: Tween, dts: Seq<u64>)
    requires
        tween_running(m, tw),
        tw.duration > 0,
        m.elapsed == 0,
        sum_dts(dts) >= tw.duration,
        forall|i: int| 0 <= i < dts.len() ==> MIN_DELTA_US <= #[trigger] dts[i],
    ensures
        spec_updates(m, dts).current == m.target,
        !spec_updates(m, dts).running,
        spec_updates(m, dts).sequence is None,
{
    lemma_tween_boundary_rec(m, tw, dts);
}

/// A tween of duration zero completes on the first tick that does numeric
/// work: the value snaps exactly to the target and the record stops.
pub proof fn lemma_zero_duration_tween<T: Animatable>(m: Motion<T>, tw: Tween, dt: u64)
    requires
        tween_running(m, tw),
        tw.duration == 0,
        MIN_DELTA_US <= dt,
    ensures
        spec_update(m, dt).current == m.target,
        !spec_update(m, dt).running,
        !spec_update_active(m, dt),
{
}

/// Whenever a run of spring substeps reports completion, the position has
/// snapped exactly to the target and the velocity to zero.
proof fn lemma_spring_steps_snap<T: Animatable>(
    target: T,
    cur: T,
    vel: T,
    sp: Spring,
    step_fp: int,
    n: nat,
)
    ensures
        ({
            let r = spec_spring_steps(target, cur, vel, sp, step_fp, n);
            r.2 ==> r.0 == target && r.1 == T::s_zero()
        }),
    decreases n,
{
    if n > 0 {
        let sub = crate::spec_spring_substep(target, cur, vel, sp, step_fp);
        if !sub.2 {
            lemma_spring_steps_snap(target, sub.0, sub.1, sp, step_fp, (n - 1) as nat);
        }
    }
}

/// Whenever a whole spring tick reports completion, the position has snapped
/// exactly to the target and the velocity to zero: the completion snap
/// eliminates asymptotic creep.
pub proof fn lemma_spring_completion_snaps<T: Animatable>(
    target: T,
    cur: T,
    vel: T,
    sp: Spring,
    dt: int,
)
    ensures
        ({
            let r = spec_spring_tick(target, cur, vel, sp, dt);
            r.2 ==> r.0 == target && r.1 == T::s_zero()
        }),
{
    let n = if dt / (SUBSTEP_US as int) >= 1 {
        dt / (SUBSTEP_US as int)
    } else {
        1
    };
    let step_fp = dt / n;
    lemma_spring_steps_snap(target, cur, vel, sp, step_fp, n as nat);
}

/// If a tick of a plain (no-loop, delay served) spring animation stops the
/// record, the value equals the target exactly and the velocity is zero.
pub proof fn lemma_spring_stop_exact<T: Animatable>(m: Motion<T>, sp: Spring, dt: u64)
    requires
        m.running,
        m.sequence is None,
        m.config.mode == AnimationMode::Spring(sp),
        m.delay_elapsed >= m.config.delay,
        (m.config.loop_mode is None || m.config.loop_mode == Some(LoopMode::NoLoop)),
    ensures
        ({
            let m2 = spec_update(m, dt);
            !m2.running ==> m2.current == m.target && m2.velocity == T::s_zero()
        }),
{
    lemma_spring_completion_snaps(m.target, m.current, m.velocity, sp, dt as int);
}

/// A record mid-flight in a finite loop of `n` cycles whose completion token
/// is `tok` and whose fired-token count is still `c0`.
pub open spec fn loop_run_inv<T: Animatable>(m: Motion<T>, n: u8, tok: u64, c0: u64) -> bool {
    &&& m.running
    &&& m.sequence is None
    &&& m.config.loop_mode == Some(LoopMode::Times(n))
    &&& m.config.on_complete == Some(tok)
    &&& m.fired_count == c0
    &&& m.current_loop < n
}

/// One tick of a finite loop: while the record keeps running no token fires,
/// the cycle bound still holds, and a completed cycle raises the loop counter
/// by exactly one; the tick that stops it is the one completing the last
/// allowed cycle, and it fires the token exactly once.
pub proof fn lemma_times_step<T: Animatable>(m: Motion<T>, n: u8, tok: u64, c0: u64, dt: u64)
    requires
        loop_run_inv(m, n, tok, c0),
        1 <= n,
        c0 < u64::MAX,
    ensures
        ({
            let m2 = spec_update(m, dt);
            &&& (m2.running ==> loop_run_inv(m2, n, tok, c0))
            &&& (m2.running && m2.current_loop != m.current_loop ==> m2.current_loop
                == m.current_loop + 1)
            &&& (!m2.running ==> m.current_loop == n - 1 && m2.fired_count == c0 + 1 && m2.event
                == Some(tok) && m2.sequence is None)
        }),
{
}

/// Over any run of ticks, a finite loop of `n >= 1` cycles fires its
/// completion token exactly once: never while still running, and exactly at
/// the tick that stops it — never mid-cycle.
pub proof fn lemma_loop_times_once<T: Animatable>(
    m: Motion<T>,
    n: u8,
    tok: u64,
    c0: u64,
    dts: Seq<u64>,
)
    requires
        loop_run_inv(m, n, tok, c0),
        1 <= n,
        c0 < u64::MAX,
    ensures
        ({
            let m2 = spec_updates(m, dts);
            &&& (m2.running ==> m2.fired_count == c0)
            &&& (!m2.running ==> m2.fired_count == c0 + 1)
        }),
    decreases dts.len(),
{
    if dts.len() > 0 {
        let rest = dts.subrange(1, dts.len() as int);
        lemma_times_step(m, n, tok, c0, dts[0]);
        let m1 = spec_update(m, dts[0]);
        if m1.running {
            lemma_loop_times_once(m1, n, tok, c0, rest);
        } else {
            lemma_idle_updates(m1, rest);
        }
    }
}

/// When a step short of the last has finished, the next tick starts the
/// following step — not any later one: the new target and configuration are
/// the next step's, the starting value is snapshotted from the current one,
/// and a surviving sequence carries the advanced cursor with the same steps
/// and completion token.
pub proof fn lemma_sequence_advances<T: Animatable>(
    m: Motion<T>,
    s: AnimationSequence<T>,
    dt: u64,
)
    requires
        m.sequence == Some(s),
        !m.running,
        s.current_step + 1 < s.steps@.len(),
    ensures
        ({
            let m2 = spec_update(m, dt);
            &&& m2.target == s.steps@[s.current_step + 1].target
            &&& m2.config == s.steps@[s.current_step + 1].config
            &&& m2.initial == m.current
            &&& (m2.sequence matches Some(s2) ==> s2.steps@ == s.steps@ && s2.current_step
                == s.current_step + 1 && s2.on_complete == s.on_complete)
        }),
{
    let m0 = Motion { event: None::<u64>, ..m };
    assert(s.steps.len() == s.steps@.len());
    let sp = crate::spec_seq_phase(m0);
    assert(!sp.1);
    let m1 = sp.0;
    let step = s.steps@[s.current_step + 1];
    assert(m1.target == step.target);
    assert(m1.config == step.config);
    assert(m1.initial == m.current);
    assert(m1.sequence matches Some(s2) ==> s2.steps@ == s.steps@ && s2.current_step
        == s.current_step + 1 && s2.on_complete == s.on_complete);
    let m2 = spec_update(m, dt);
    assert(m2.target == m1.target && m2.config == m1.config && m2.initial == m1.initial);
    assert(m2.sequence matches Some(s2) ==> s2.steps@ == s.steps@ && s2.current_step
        == s.current_step + 1 && s2.on_complete == s.on_complete);
}

/// After the last step has finished, the next tick fires the sequence's
/// one-shot completion token (when one is attached), clears the sequence and
/// stops: the sequence token fires only after the final step completes.
pub proof fn lemma_sequence_completes<T: Animatable>(
    m: Motion<T>,
    s: AnimationSequence<T>,
    dt: u64,
)
    requires
        m.sequence == Some(s),
        !m.running,
        1 <= s.steps@.len(),
        s.current_step + 1 == s.steps@.len(),
        m.fired_count < u64::MAX,
    ensures
        ({
            let m2 = spec_update(m, dt);
            &&& !m2.running
            &&& m2.sequence is None
            &&& !spec_update_active(m, dt)
            &&& m2.current == m.current
            &&& (s.on_complete matches Some(tok) ==> m2.event == Some(tok) && m2.fired_count
                == m.fired_count + 1)
            &&& (s.on_complete is None ==> m2.event is None && m2.fired_count == m.fired_count)
        }),
{
}

} // verus!
