//! Laws of the simulation, proved once and for all.
//!
//! Each public proof function here states a fact that holds of every
//! run of the library, over the same specification mirrors that the
//! executable functions are proved to compute: where a bob starts,
//! that a motionless weightless system stays put forever, that the
//! bottom bob always hangs from the top bob's same-tick position, and
//! that a run is a pure function of its inputs.

use vstd::prelude::*;
use crate::fixed::fadd;
use crate::fixed::fsub;
use crate::fixed::fmuli;
use crate::fixed::fneg;
use crate::fixed::fmul;
use crate::fixed::lemma_fmul_zero;
use crate::fixed::lemma_fdiv_zero;
use crate::fixed::lemma_fdivi_zero;
use crate::fixed::lemma_fmul_scale;
use crate::trig::sin_fx;
use crate::trig::cos_fx;
use crate::trig::lemma_sin_zero;
use crate::trig::lemma_cos_zero;
use crate::pendulum::PendulumModel;
use crate::pendulum::new_spec;
use crate::pendulum::step_spec;
use crate::pendulum::euler_step_spec;
use crate::pendulum::top_accel;
use crate::pendulum::bottom_accel;
use crate::pendulum::top_vel_inc;
use crate::pendulum::bottom_vel_inc;
use crate::pendulum::top_ang_inc;
use crate::pendulum::bottom_ang_inc;
use crate::pendulum::half_step;
use crate::pendulum::rk4_combine;
use crate::pendulum::positions_consistent;
use crate::pendulum::in_range;

verus! {

/// The state after stepping through every elapsed-time value of `dts`,
/// first value first.
pub open spec fn run(m: PendulumModel, dts: Seq<int>) -> PendulumModel
    decreases dts.len(),
{
    if dts.len() == 0 {
        m
    } else {
        run(step_spec(m, dts[0]), dts.subrange(1, dts.len() as int))
    }
}

/// Initial placement: a system built with both angles zero hangs both
/// bobs directly below their pivots, the top bob one rod length under
/// the origin and the bottom bob one further rod length under that,
/// with no horizontal offset at all.
pub proof fn lemma_initial_placement(
    ox: int,
    oy: int,
    g: int,
    m1: int,
    l1: int,
    m2: int,
    l2: int,
)
    requires
        i64::MIN <= ox <= i64::MAX,
        i64::MIN <= oy <= i64::MAX,
        0 < l1 <= i64::MAX,
        0 < l2 <= i64::MAX,
        i64::MIN <= oy - l1 - l2,
    ensures
        new_spec(ox, oy, g, m1, l1, 0, m2, l2, 0).top.x == ox,
        new_spec(ox, oy, g, m1, l1, 0, m2, l2, 0).top.y == oy - l1,
        new_spec(ox, oy, g, m1, l1, 0, m2, l2, 0).bottom.x == ox,
        new_spec(ox, oy, g, m1, l1, 0, m2, l2, 0).bottom.y == oy - l1 - l2,
{
    lemma_sin_zero();
    lemma_cos_zero();
    lemma_fmul_zero(l1);
    lemma_fmul_zero(l2);
    lemma_fmul_scale(-l1);
    lemma_fmul_scale(-l2);
    assert(fmul(fneg(l1), cos_fx(0)) == -l1);
    assert(fmul(fneg(l2), cos_fx(0)) == -l2);
}

/// Without gravity and without initial motion no acceleration is ever
/// induced, whatever the two angles are held at.
proof fn lemma_accels_zero(m: PendulumModel, a1: int, a2: int, literal_denom: bool)
    requires
        m.gravity == 0,
        m.top.angle_velocity == 0,
        m.bottom.angle_velocity == 0,
    ensures
        top_accel(m, a1, a2, literal_denom) == 0,
        bottom_accel(m, a1, a2) == 0,
{
    reveal(top_accel);
    reveal(bottom_accel);
    lemma_fmul_zero(m.top.mass);
    lemma_fmul_zero(m.bottom.mass);
    lemma_fmul_zero(m.top.length);
    lemma_fmul_zero(m.bottom.length);
    lemma_fmul_zero(sin_fx(a1));
    lemma_fmul_zero(fadd(m.bottom.mass, 0));
    lemma_fmul_zero(cos_fx(a1));
    assert(fmul(0, fadd(fmuli(m.top.mass, 2), m.bottom.mass)) == 0) by {
        lemma_fmul_zero(fadd(fmuli(m.top.mass, 2), m.bottom.mass));
    }
    assert(fmul(fmul(m.bottom.mass, 0), sin_fx(fsub(a1, fmuli(a2, 2)))) == 0) by {
        lemma_fmul_zero(m.bottom.mass);
        lemma_fmul_zero(sin_fx(fsub(a1, fmuli(a2, 2))));
    }
    lemma_fmul_zero(cos_fx(fsub(a1, a2)));
    lemma_fmul_zero(fmul(0, cos_fx(fsub(a1, a2))));
    lemma_fmul_zero(fmul(fmul(0, m.top.length), cos_fx(fsub(a1, a2))));
    lemma_fmul_zero(fmuli(sin_fx(fsub(a1, a2)), 2));
    lemma_fmul_zero(
        fmul(fmuli(sin_fx(fsub(a1, a2)), 2), m.bottom.mass),
    );
    lemma_fmul_zero(fadd(m.top.mass, m.bottom.mass));
    lemma_fmul_zero(fmul(0, fadd(m.top.mass, m.bottom.mass)));
    lemma_fdiv_zero(
        fmul(
            m.top.length,
            fsub(
                fadd(fmuli(m.top.mass, 2), m.bottom.mass),
                fmul(
                    m.bottom.mass,
                    if literal_denom {
                        cos_fx(fsub(fmuli(a1, 2), fmuli(a1, 2)))
                    } else {
                        cos_fx(fsub(fmuli(a1, 2), fmuli(a2, 2)))
                    },
                ),
            ),
        ),
    );
    lemma_fdiv_zero(
        fmul(
            m.bottom.length,
            fsub(
                fadd(fmuli(m.top.mass, 2), m.bottom.mass),
                fmul(
                    m.bottom.mass,
                    cos_fx(fsub(fmuli(a1, 2), fmuli(a2, 2))),
                ),
            ),
        ),
    );
}

/// Without gravity and without initial motion the integrator adds
/// nothing to either angular velocity, whatever the stage angles.
proof fn lemma_vel_incs_zero(m: PendulumModel, a1: int, a2: int, dt: int)
    requires
        m.gravity == 0,
        m.top.angle_velocity == 0,
        m.bottom.angle_velocity == 0,
    ensures
        top_vel_inc(m, a1, a2, dt) == 0,
        bottom_vel_inc(m, a1, a2, dt) == 0,
{
    reveal(top_vel_inc);
    reveal(bottom_vel_inc);
    lemma_accels_zero(m, a1, a2, false);
    lemma_accels_zero(m, fadd(a1, half_step(dt, 0)), fadd(a2, half_step(dt, 0)), false);
    lemma_accels_zero(m, fadd(a1, dt), fadd(a2, dt), false);
    assert(rk4_combine(dt, 0, 0, 0, 0) == 0) by {
        lemma_fmul_zero(dt);
        lemma_fdivi_zero(6);
    }
}

/// Without gravity and without initial motion the integrator adds
/// nothing to either angle, whatever the stage angles.
proof fn lemma_ang_incs_zero(m: PendulumModel, a1: int, a2: int, dt: int)
    requires
        m.gravity == 0,
        m.top.angle_velocity == 0,
        m.bottom.angle_velocity == 0,
    ensures
        top_ang_inc(m, a1, a2, dt) == 0,
        bottom_ang_inc(m, a1, a2, dt) == 0,
{
    reveal(top_ang_inc);
    reveal(bottom_ang_inc);
    lemma_vel_incs_zero(m, a1, a2, dt);
    lemma_vel_incs_zero(m, fadd(a1, half_step(dt, 0)), fadd(a2, half_step(dt, 0)), dt);
    lemma_vel_incs_zero(m, fadd(a1, dt), fadd(a2, dt), dt);
    assert(rk4_combine(dt, 0, 0, 0, 0) == 0) by {
        lemma_fmul_zero(dt);
        lemma_fdivi_zero(6);
    }
}

/// Zero-gravity rest: in a well-placed state with gravity zero and
/// both angular velocities zero, a step of any elapsed time induces no
/// acceleration and moves nothing: angles, velocities and positions
/// come out unchanged, and when the stored accelerations are zero as
/// well the state is a fixed point of the stepping function outright.
pub proof fn lemma_rest_step(m: PendulumModel, dt: int)
    requires
        positions_consistent(m),
        in_range(m),
        m.gravity == 0,
        m.top.angle_velocity == 0,
        m.bottom.angle_velocity == 0,
    ensures
        step_spec(m, dt).top.angle == m.top.angle,
        step_spec(m, dt).bottom.angle == m.bottom.angle,
        step_spec(m, dt).top.angle_velocity == 0,
        step_spec(m, dt).bottom.angle_velocity == 0,
        step_spec(m, dt).top.angle_acceleration == 0,
        step_spec(m, dt).bottom.angle_acceleration == 0,
        step_spec(m, dt).top.x == m.top.x,
        step_spec(m, dt).top.y == m.top.y,
        step_spec(m, dt).bottom.x == m.bottom.x,
        step_spec(m, dt).bottom.y == m.bottom.y,
        step_spec(m, dt).origin_x == m.origin_x,
        step_spec(m, dt).origin_y == m.origin_y,
        step_spec(m, dt).gravity == 0,
        step_spec(m, dt).top.mass == m.top.mass,
        step_spec(m, dt).bottom.mass == m.bottom.mass,
        step_spec(m, dt).top.length == m.top.length,
        step_spec(m, dt).bottom.length == m.bottom.length,
        m.top.angle_acceleration == 0 && m.bottom.angle_acceleration == 0 ==> step_spec(
            m,
            dt,
        ) == m,
{
    lemma_accels_zero(m, m.top.angle, m.bottom.angle, false);
    lemma_vel_incs_zero(m, m.top.angle, m.bottom.angle, dt);
    lemma_ang_incs_zero(m, m.top.angle, m.bottom.angle, dt);
}

/// Zero-gravity rest over any horizon: with gravity zero and both
/// initial angular velocities zero, angles and positions are unchanged
/// after any number of steps of any sizes, and no velocity is ever
/// picked up.
pub proof fn lemma_rest_run(m: PendulumModel, dts: Seq<int>)
    requires
        positions_consistent(m),
        in_range(m),
        m.gravity == 0,
        m.top.angle_velocity == 0,
        m.bottom.angle_velocity == 0,
    ensures
        run(m, dts).top.angle == m.top.angle,
        run(m, dts).bottom.angle == m.bottom.angle,
        run(m, dts).top.angle_velocity == 0,
        run(m, dts).bottom.angle_velocity == 0,
        run(m, dts).top.x == m.top.x,
        run(m, dts).top.y == m.top.y,
        run(m, dts).bottom.x == m.bottom.x,
        run(m, dts).bottom.y == m.bottom.y,
    decreases dts.len(),
{
    if dts.len() == 0 {
    } else {
        lemma_rest_step(m, dts[0]);
        lemma_rest_run(step_spec(m, dts[0]), dts.subrange(1, dts.len() as int));
    }
}

/// Zero-gravity rest holds of the fallback scheme too: with gravity
/// zero and both angular velocities zero, a semi-implicit Euler step of
/// any elapsed time moves nothing.
pub proof fn lemma_rest_step_euler(m: PendulumModel, dt: int)
    requires
        positions_consistent(m),
        in_range(m),
        m.gravity == 0,
        m.top.angle_velocity == 0,
        m.bottom.angle_velocity == 0,
    ensures
        euler_step_spec(m, dt).top.angle == m.top.angle,
        euler_step_spec(m, dt).bottom.angle == m.bottom.angle,
        euler_step_spec(m, dt).top.angle_velocity == 0,
        euler_step_spec(m, dt).bottom.angle_velocity == 0,
        euler_step_spec(m, dt).top.x == m.top.x,
        euler_step_spec(m, dt).top.y == m.top.y,
        euler_step_spec(m, dt).bottom.x == m.bottom.x,
        euler_step_spec(m, dt).bottom.y == m.bottom.y,
        m.top.angle_acceleration == 0 && m.bottom.angle_acceleration == 0 ==> euler_step_spec(
            m,
            dt,
        ) == m,
{
    lemma_accels_zero(m, m.top.angle, m.bottom.angle, false);
    lemma_fmul_zero(dt);
}

/// Pivot consistency: in every well-placed state whose offsets do not
/// saturate, the bottom bob's position minus the top bob's position is
/// exactly the bottom rod's polar offset at the bottom bob's own
/// current angle, so no position is ever derived from a stale pivot.
pub proof fn lemma_pivot_offset(m: PendulumModel)
    requires
        positions_consistent(m),
        i64::MIN <= fmul(m.bottom.length, sin_fx(m.bottom.angle)) + m.top.x <= i64::MAX,
        i64::MIN <= fmul(fneg(m.bottom.length), cos_fx(m.bottom.angle)) + m.top.y <= i64::MAX,
    ensures
        m.bottom.x - m.top.x == fmul(m.bottom.length, sin_fx(m.bottom.angle)),
        m.bottom.y - m.top.y == fmul(fneg(m.bottom.length), cos_fx(m.bottom.angle)),
{
}

/// Determinism: stepping is a pure function of the state and the
/// elapsed-time sequence, so two runs from equal starting states
/// through equal time sequences coincide exactly, state by state.
pub proof fn lemma_deterministic(
    m1: PendulumModel,
    m2: PendulumModel,
    dts1: Seq<int>,
    dts2: Seq<int>,
)
    requires
        m1 == m2,
        dts1 == dts2,
    ensures
        run(m1, dts1) == run(m2, dts2),
{
}

} // verus!

