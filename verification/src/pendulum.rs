//! The double-pendulum state and its dynamics.
//!
//! A `Pendulum` owns a fixed origin, a gravity constant and two `Bob`
//! masses; `update` advances the coupled equations of motion by one
//! time step and recomputes both Cartesian positions.  Every scalar is
//! a fixed-point number (see `fixed`); every executable step is proved
//! equal to a specification mirror over the mathematical model
//! `PendulumModel`, so the whole tick is pinned down exactly.

use vstd::prelude::*;
use crate::fixed::sat;
use crate::fixed::fadd;
use crate::fixed::fsub;
use crate::fixed::fneg;
use crate::fixed::fmuli;
use crate::fixed::fmul;
use crate::fixed::fdiv;
use crate::fixed::fdivi;
use crate::fixed::fx_add;
use crate::fixed::fx_sub;
use crate::fixed::fx_neg;
use crate::fixed::fx_muli;
use crate::fixed::fx_mul;
use crate::fixed::fx_div;
use crate::fixed::fx_divi;
use crate::trig::sin_fx;
use crate::trig::cos_fx;
use crate::trig::fx_sin;
use crate::trig::fx_cos;

verus! {

/// One pendulum mass at the end of a rigid massless rod.
///
/// `x` and `y` are derived: they are recomputed from the angle on every
/// tick and never drift away from it.  The angle is measured in
/// fixed-point radians from the downward vertical through the bob's
/// pivot and is left unwrapped.
pub struct Bob {
    pub x: i64,
    pub y: i64,
    pub mass: i64,
    pub length: i64,
    pub angle: i64,
    pub angle_velocity: i64,
    pub angle_acceleration: i64,
}

/// The whole two-segment system: a fixed upper pivot, gravity, a top
/// bob hung from the origin and a bottom bob hung from the top bob.
pub struct Pendulum {
    pub origin_x: i64,
    pub origin_y: i64,
    pub gravity: i64,
    pub top: Bob,
    pub bottom: Bob,
}

/// Mathematical image of a `Bob`: the same fields over `int`.
pub struct BobModel {
    pub x: int,
    pub y: int,
    pub mass: int,
    pub length: int,
    pub angle: int,
    pub angle_velocity: int,
    pub angle_acceleration: int,
}

/// Mathematical image of a `Pendulum`.
pub struct PendulumModel {
    pub origin_x: int,
    pub origin_y: int,
    pub gravity: int,
    pub top: BobModel,
    pub bottom: BobModel,
}

impl View for Bob {
    type V = BobModel;

    open spec fn view(&self) -> BobModel {
        BobModel {
            x: self.x as int,
            y: self.y as int,
            mass: self.mass as int,
            length: self.length as int,
            angle: self.angle as int,
            angle_velocity: self.angle_velocity as int,
            angle_acceleration: self.angle_acceleration as int,
        }
    }
}

impl View for Pendulum {
    type V = PendulumModel;

    open spec fn view(&self) -> PendulumModel {
        PendulumModel {
            origin_x: self.origin_x as int,
            origin_y: self.origin_y as int,
            gravity: self.gravity as int,
            top: self.top@,
            bottom: self.bottom@,
        }
    }
}

/// Horizontal coordinate of a bob of rod length `l` at angle `a`, hung
/// from a pivot with horizontal coordinate `px`.
pub open spec fn polar_x(px: int, l: int, a: int) -> int {
    fadd(fmul(l, sin_fx(a)), px)
}

/// Vertical coordinate of a bob of rod length `l` at angle `a`, hung
/// from a pivot with vertical coordinate `py`; angle zero hangs the bob
/// straight down.
pub open spec fn polar_y(py: int, l: int, a: int) -> int {
    fadd(fmul(fneg(l), cos_fx(a)), py)
}

/// Angular acceleration of the top bob when the two rods stand at the
/// angles `a1` and `a2`; masses, lengths, gravity and the two current
/// angular velocities are read from the model.
///
/// Two forms of the denominator's cosine term circulate: a
/// widely-copied form writes `cos(2*a1 - 2*a1)`, which is identically
/// one, while the standard Lagrangian derivation has
/// `cos(2*a1 - 2*a2)`.  `literal_denom` selects the former; `update`
/// uses the standard form.
#[verifier::opaque]
pub open spec fn top_accel(m: PendulumModel, a1: int, a2: int, literal_denom: bool) -> int {
    let g = m.gravity;
    let m1 = m.top.mass;
    let m2 = m.bottom.mass;
    let av1 = m.top.angle_velocity;
    let av2 = m.bottom.angle_velocity;
    let l1 = m.top.length;
    let l2 = m.bottom.length;
    let d = fsub(a1, a2);
    let t1 = fmul(fmul(fmuli(g, -1), fadd(fmuli(m1, 2), m2)), sin_fx(a1));
    let t2 = fmul(fmul(m2, g), sin_fx(fsub(a1, fmuli(a2, 2))));
    let swing = fadd(fmul(av2, l2), fmul(fmul(av1, l1), cos_fx(d)));
    let t3 = fmul(fmul(fmuli(sin_fx(d), 2), m2), swing);
    let num = fsub(fsub(t1, t2), t3);
    let dcos = if literal_denom {
        cos_fx(fsub(fmuli(a1, 2), fmuli(a1, 2)))
    } else {
        cos_fx(fsub(fmuli(a1, 2), fmuli(a2, 2)))
    };
    let den = fmul(l1, fsub(fadd(fmuli(m1, 2), m2), fmul(m2, dcos)));
    fdiv(num, den)
}

/// Angular acceleration of the bottom bob when the two rods stand at
/// the angles `a1` and `a2`.
#[verifier::opaque]
pub open spec fn bottom_accel(m: PendulumModel, a1: int, a2: int) -> int {
    let g = m.gravity;
    let m1 = m.top.mass;
    let m2 = m.bottom.mass;
    let av1 = m.top.angle_velocity;
    let av2 = m.bottom.angle_velocity;
    let l1 = m.top.length;
    let l2 = m.bottom.length;
    let d = fsub(a1, a2);
    let msum = fadd(m1, m2);
    let swing = fadd(
        fadd(fmul(fmul(av1, l1), msum), fmul(fmul(g, msum), cos_fx(a1))),
        fmul(fmul(fmul(av2, l2), m2), cos_fx(d)),
    );
    let num = fmul(fmuli(sin_fx(d), 2), swing);
    let den = fmul(l2, fsub(fadd(fmuli(m1, 2), m2), fmul(m2, cos_fx(fsub(fmuli(a1, 2), fmuli(a2, 2))))));
    fdiv(num, den)
}

/// Half of a staggered stage offset: `dt * k / 2`.
pub open spec fn half_step(dt: int, k: int) -> int {
    fdivi(fmul(dt, k), 2)
}

/// The classical fourth-order weighting of four samples:
/// `dt * (k1 + 2*k2 + 2*k3 + k4) / 6`.
pub open spec fn rk4_combine(dt: int, k1: int, k2: int, k3: int, k4: int) -> int {
    fdivi(fmul(dt, fadd(fadd(fadd(k1, fmuli(k2, 2)), fmuli(k3, 2)), k4)), 6)
}

/// Velocity increment of the top bob over one step: a fourth-order
/// combination of four acceleration samples taken at staggered angle
/// estimates across the step.
#[verifier::opaque]
pub open spec fn top_vel_inc(m: PendulumModel, a1: int, a2: int, dt: int) -> int {
    let k1 = top_accel(m, a1, a2, false);
    let k2 = top_accel(m, fadd(a1, half_step(dt, k1)), fadd(a2, half_step(dt, k1)), false);
    let k3 = top_accel(m, fadd(a1, half_step(dt, k2)), fadd(a2, half_step(dt, k2)), false);
    let k4 = top_accel(m, fadd(a1, dt), fadd(a2, dt), false);
    rk4_combine(dt, k1, k2, k3, k4)
}

/// Velocity increment of the bottom bob over one step.
#[verifier::opaque]
pub open spec fn bottom_vel_inc(m: PendulumModel, a1: int, a2: int, dt: int) -> int {
    let k1 = bottom_accel(m, a1, a2);
    let k2 = bottom_accel(m, fadd(a1, half_step(dt, k1)), fadd(a2, half_step(dt, k1)));
    let k3 = bottom_accel(m, fadd(a1, half_step(dt, k2)), fadd(a2, half_step(dt, k2)));
    let k4 = bottom_accel(m, fadd(a1, dt), fadd(a2, dt));
    rk4_combine(dt, k1, k2, k3, k4)
}

/// Angle increment of the top bob over one step: the same fourth-order
/// combination, one level up, of four velocity samples.  Each sample is
/// the current angular velocity plus the velocity increment evaluated
/// at a staggered angle estimate, so the angle advances with the motion
/// already under way as well as with the acceleration gained across the
/// step.
#[verifier::opaque]
pub open spec fn top_ang_inc(m: PendulumModel, a1: int, a2: int, dt: int) -> int {
    let av = m.top.angle_velocity;
    let s1 = fadd(av, top_vel_inc(m, a1, a2, dt));
    let s2 = fadd(av, top_vel_inc(m, fadd(a1, half_step(dt, s1)), fadd(a2, half_step(dt, s1)), dt));
    let s3 = fadd(av, top_vel_inc(m, fadd(a1, half_step(dt, s2)), fadd(a2, half_step(dt, s2)), dt));
    let s4 = fadd(av, top_vel_inc(m, fadd(a1, dt), fadd(a2, dt), dt));
    rk4_combine(dt, s1, s2, s3, s4)
}

/// Angle increment of the bottom bob over one step.
#[verifier::opaque]
pub open spec fn bottom_ang_inc(m: PendulumModel, a1: int, a2: int, dt: int) -> int {
    let av = m.bottom.angle_velocity;
    let s1 = fadd(av, bottom_vel_inc(m, a1, a2, dt));
    let s2 = fadd(av, bottom_vel_inc(m, fadd(a1, half_step(dt, s1)), fadd(a2, half_step(dt, s1)), dt));
    let s3 = fadd(av, bottom_vel_inc(m, fadd(a1, half_step(dt, s2)), fadd(a2, half_step(dt, s2)), dt));
    let s4 = fadd(av, bottom_vel_inc(m, fadd(a1, dt), fadd(a2, dt), dt));
    rk4_combine(dt, s1, s2, s3, s4)
}

/// Both Cartesian positions recomputed from the current angles: the
/// top bob hangs from the origin, the bottom bob from the top bob's
/// fresh position of the same tick.
pub open spec fn recompute_positions(m: PendulumModel) -> PendulumModel {
    let tx = polar_x(m.origin_x, m.top.length, m.top.angle);
    let ty = polar_y(m.origin_y, m.top.length, m.top.angle);
    PendulumModel {
        origin_x: m.origin_x,
        origin_y: m.origin_y,
        gravity: m.gravity,
        top: BobModel {
            x: tx,
            y: ty,
            mass: m.top.mass,
            length: m.top.length,
            angle: m.top.angle,
            angle_velocity: m.top.angle_velocity,
            angle_acceleration: m.top.angle_acceleration,
        },
        bottom: BobModel {
            x: polar_x(tx, m.bottom.length, m.bottom.angle),
            y: polar_y(ty, m.bottom.length, m.bottom.angle),
            mass: m.bottom.mass,
            length: m.bottom.length,
            angle: m.bottom.angle,
            angle_velocity: m.bottom.angle_velocity,
            angle_acceleration: m.bottom.angle_acceleration,
        },
    }
}

/// The freshly constructed system: structural parameters stored as
/// given, angular velocities and accelerations zero, and both positions
/// computed from the initial angles.
pub open spec fn new_spec(
    origin_x: int,
    origin_y: int,
    gravity: int,
    top_mass: int,
    top_length: int,
    top_angle: int,
    bottom_mass: int,
    bottom_length: int,
    bottom_angle: int,
) -> PendulumModel {
    recompute_positions(
        PendulumModel {
            origin_x: origin_x,
            origin_y: origin_y,
            gravity: gravity,
            top: BobModel {
                x: 0,
                y: 0,
                mass: top_mass,
                length: top_length,
                angle: top_angle,
                angle_velocity: 0,
                angle_acceleration: 0,
            },
            bottom: BobModel {
                x: 0,
                y: 0,
                mass: bottom_mass,
                length: bottom_length,
                angle: bottom_angle,
                angle_velocity: 0,
                angle_acceleration: 0,
            },
        },
    )
}

/// One whole tick: both accelerations, both velocity increments and
/// both angle increments are evaluated on the pre-tick state, then
/// applied, then the positions are recomputed from the new angles.
pub open spec fn step_spec(m: PendulumModel, dt: int) -> PendulumModel {
    let a1 = m.top.angle;
    let a2 = m.bottom.angle;
    recompute_positions(
        PendulumModel {
            origin_x: m.origin_x,
            origin_y: m.origin_y,
            gravity: m.gravity,
            top: BobModel {
                x: m.top.x,
                y: m.top.y,
                mass: m.top.mass,
                length: m.top.length,
                angle: fadd(a1, top_ang_inc(m, a1, a2, dt)),
                angle_velocity: fadd(m.top.angle_velocity, top_vel_inc(m, a1, a2, dt)),
                angle_acceleration: top_accel(m, a1, a2, false),
            },
            bottom: BobModel {
                x: m.bottom.x,
                y: m.bottom.y,
                mass: m.bottom.mass,
                length: m.bottom.length,
                angle: fadd(a2, bottom_ang_inc(m, a1, a2, dt)),
                angle_velocity: fadd(m.bottom.angle_velocity, bottom_vel_inc(m, a1, a2, dt)),
                angle_acceleration: bottom_accel(m, a1, a2),
            },
        },
    )
}

/// One whole tick of the simpler, cheaper fallback scheme,
/// semi-implicit Euler: each acceleration is evaluated once on the
/// pre-tick state, each velocity gains `accel * dt`, and each angle
/// then gains the updated velocity as a per-tick delta, not re-scaled
/// by `dt`; the velocity is updated before the angle.  Cheaper but
/// drifts over long runs; `step_spec` is the reference scheme.
pub open spec fn euler_step_spec(m: PendulumModel, dt: int) -> PendulumModel {
    let a1 = m.top.angle;
    let a2 = m.bottom.angle;
    let ta = top_accel(m, a1, a2, false);
    let ba = bottom_accel(m, a1, a2);
    let nv1 = fadd(m.top.angle_velocity, fmul(ta, dt));
    let nv2 = fadd(m.bottom.angle_velocity, fmul(ba, dt));
    recompute_positions(
        PendulumModel {
            origin_x: m.origin_x,
            origin_y: m.origin_y,
            gravity: m.gravity,
            top: BobModel {
                x: m.top.x,
                y: m.top.y,
                mass: m.top.mass,
                length: m.top.length,
                angle: fadd(a1, nv1),
                angle_velocity: nv1,
                angle_acceleration: ta,
            },
            bottom: BobModel {
                x: m.bottom.x,
                y: m.bottom.y,
                mass: m.bottom.mass,
                length: m.bottom.length,
                angle: fadd(a2, nv2),
                angle_velocity: nv2,
                angle_acceleration: ba,
            },
        },
    )
}

/// The positions stored in the model are exactly the ones its angles
/// give: nothing is ever derived from a stale pivot.
pub open spec fn positions_consistent(m: PendulumModel) -> bool {
    &&& m.top.x == polar_x(m.origin_x, m.top.length, m.top.angle)
    &&& m.top.y == polar_y(m.origin_y, m.top.length, m.top.angle)
    &&& m.bottom.x == polar_x(m.top.x, m.bottom.length, m.bottom.angle)
    &&& m.bottom.y == polar_y(m.top.y, m.bottom.length, m.bottom.angle)
}

/// Every field of the model fits in the `i64` scalar range; true of the
/// image of every executable `Pendulum`.
pub open spec fn in_range(m: PendulumModel) -> bool {
    &&& sat(m.origin_x) == m.origin_x
    &&& sat(m.origin_y) == m.origin_y
    &&& sat(m.gravity) == m.gravity
    &&& sat(m.top.x) == m.top.x
    &&& sat(m.top.y) == m.top.y
    &&& sat(m.top.mass) == m.top.mass
    &&& sat(m.top.length) == m.top.length
    &&& sat(m.top.angle) == m.top.angle
    &&& sat(m.top.angle_velocity) == m.top.angle_velocity
    &&& sat(m.top.angle_acceleration) == m.top.angle_acceleration
    &&& sat(m.bottom.x) == m.bottom.x
    &&& sat(m.bottom.y) == m.bottom.y
    &&& sat(m.bottom.mass) == m.bottom.mass
    &&& sat(m.bottom.length) == m.bottom.length
    &&& sat(m.bottom.angle) == m.bottom.angle
    &&& sat(m.bottom.angle_velocity) == m.bottom.angle_velocity
    &&& sat(m.bottom.angle_acceleration) == m.bottom.angle_acceleration
}

/// A well-formed system: in range, positive masses and rod lengths, and
/// positions derived from the current angles.
pub open spec fn wf(m: PendulumModel) -> bool {
    &&& in_range(m)
    &&& m.top.mass > 0
    &&& m.bottom.mass > 0
    &&& m.top.length > 0
    &&& m.bottom.length > 0
    &&& positions_consistent(m)
}

impl Pendulum {
    /// Build the system from its nine scalar parameters.  Angular
    /// velocities and accelerations start at zero and both positions
    /// are computed at once from the initial angles.  Every numeric
    /// input is accepted; zero or negative masses and lengths are the
    /// caller's contract violation and merely yield a degenerate run.
    pub fn new(
        origin_x: i64,
        origin_y: i64,
        gravity: i64,
        top_mass: i64,
        top_length: i64,
        top_angle: i64,
        bottom_mass: i64,
        bottom_length: i64,
        bottom_angle: i64,
    ) -> (p: Pendulum)
        ensures
            p@ == new_spec(
                origin_x as int,
                origin_y as int,
                gravity as int,
                top_mass as int,
                top_length as int,
                top_angle as int,
                bottom_mass as int,
                bottom_length as int,
                bottom_angle as int,
            ),
            positions_consistent(p@),
            in_range(p@),
            top_mass > 0 && bottom_mass > 0 && top_length > 0 && bottom_length > 0 ==> wf(p@),
    {
        let top = Bob {
            x: 0,
            y: 0,
            mass: top_mass,
            length: top_length,
            angle: top_angle,
            angle_velocity: 0,
            angle_acceleration: 0,
        };
        let bottom = Bob {
            x: 0,
            y: 0,
            mass: bottom_mass,
            length: bottom_length,
            angle: bottom_angle,
            angle_velocity: 0,
            angle_acceleration: 0,
        };
        let mut p = Pendulum { origin_x, origin_y, gravity, top, bottom };
        p.polar_to_cartesian();
        p
    }

    /// Advance the system by one tick of `time_step` fixed-point
    /// seconds.  All six derived quantities are evaluated on the
    /// pre-tick snapshot, so neither bob ever observes the other's
    /// mid-tick values; then the new state is written and the positions
    /// are recomputed.
    pub fn update(&mut self, time_step: i64)
        ensures
            final(self)@ == step_spec(old(self)@, time_step as int),
            positions_consistent(final(self)@),
            in_range(final(self)@),
            wf(old(self)@) ==> wf(final(self)@),
    {
        let a1 = self.top.angle;
        let a2 = self.bottom.angle;
        let ta = self.calc_top_acceleration(a1, a2, false);
        let ba = self.calc_bottom_acceleration(a1, a2);
        let dv1 = self.calc_top_velocity(a1, a2, time_step);
        let dv2 = self.calc_bottom_velocity(a1, a2, time_step);
        let da1 = self.calc_top_angle(a1, a2, time_step);
        let da2 = self.calc_bottom_angle(a1, a2, time_step);
        self.top.angle_acceleration = ta;
        self.bottom.angle_acceleration = ba;
        self.top.angle_velocity = fx_add(self.top.angle_velocity, dv1);
        self.bottom.angle_velocity = fx_add(self.bottom.angle_velocity, dv2);
        self.top.angle = fx_add(a1, da1);
        self.bottom.angle = fx_add(a2, da2);
        self.polar_to_cartesian();
    }

    /// Advance the system by one tick of the simpler fallback scheme,
    /// semi-implicit Euler; see `euler_step_spec`.  `update` is the
    /// reference integrator, this one a cheap baseline to compare it
    /// against.
    pub fn update_euler(&mut self, time_step: i64)
        ensures
            final(self)@ == euler_step_spec(old(self)@, time_step as int),
            positions_consistent(final(self)@),
            in_range(final(self)@),
            wf(old(self)@) ==> wf(final(self)@),
    {
        let a1 = self.top.angle;
        let a2 = self.bottom.angle;
        let ta = self.calc_top_acceleration(a1, a2, false);
        let ba = self.calc_bottom_acceleration(a1, a2);
        self.top.angle_acceleration = ta;
        self.bottom.angle_acceleration = ba;
        self.top.angle_velocity = fx_add(self.top.angle_velocity, fx_mul(ta, time_step));
        self.bottom.angle_velocity = fx_add(self.bottom.angle_velocity, fx_mul(ba, time_step));
        self.top.angle = fx_add(a1, self.top.angle_velocity);
        self.bottom.angle = fx_add(a2, self.bottom.angle_velocity);
        self.polar_to_cartesian();
    }

    /// Angular acceleration of the top bob at the given pair of angles;
    /// see `top_accel` for the role of `literal_denom`.
    pub fn calc_top_acceleration(&self, a1: i64, a2: i64, literal_denom: bool) -> (r: i64)
        ensures
            r as int == top_accel(self@, a1 as int, a2 as int, literal_denom),
    {
        proof {
            reveal(top_accel);
        }
        let g = self.gravity;
        let m1 = self.top.mass;
        let m2 = self.bottom.mass;
        let av1 = self.top.angle_velocity;
        let av2 = self.bottom.angle_velocity;
        let l1 = self.top.length;
        let l2 = self.bottom.length;
        let d = fx_sub(a1, a2);
        let t1 = fx_mul(fx_mul(fx_muli(g, -1), fx_add(fx_muli(m1, 2), m2)), fx_sin(a1));
        let t2 = fx_mul(fx_mul(m2, g), fx_sin(fx_sub(a1, fx_muli(a2, 2))));
        let swing = fx_add(fx_mul(av2, l2), fx_mul(fx_mul(av1, l1), fx_cos(d)));
        let t3 = fx_mul(fx_mul(fx_muli(fx_sin(d), 2), m2), swing);
        let num = fx_sub(fx_sub(t1, t2), t3);
        let dcos = if literal_denom {
            fx_cos(fx_sub(fx_muli(a1, 2), fx_muli(a1, 2)))
        } else {
            fx_cos(fx_sub(fx_muli(a1, 2), fx_muli(a2, 2)))
        };
        let den = fx_mul(l1, fx_sub(fx_add(fx_muli(m1, 2), m2), fx_mul(m2, dcos)));
        fx_div(num, den)
    }

    /// Angular acceleration of the bottom bob at the given pair of
    /// angles.
    pub fn calc_bottom_acceleration(&self, a1: i64, a2: i64) -> (r: i64)
        ensures
            r as int == bottom_accel(self@, a1 as int, a2 as int),
    {
        proof {
            reveal(bottom_accel);
        }
        let g = self.gravity;
        let m1 = self.top.mass;
        let m2 = self.bottom.mass;
        let av1 = self.top.angle_velocity;
        let av2 = self.bottom.angle_velocity;
        let l1 = self.top.length;
        let l2 = self.bottom.length;
        let d = fx_sub(a1, a2);
        let msum = fx_add(m1, m2);
        let swing = fx_add(
            fx_add(fx_mul(fx_mul(av1, l1), msum), fx_mul(fx_mul(g, msum), fx_cos(a1))),
            fx_mul(fx_mul(fx_mul(av2, l2), m2), fx_cos(d)),
        );
        let num = fx_mul(fx_muli(fx_sin(d), 2), swing);
        let den = fx_mul(
            l2,
            fx_sub(fx_add(fx_muli(m1, 2), m2), fx_mul(m2, fx_cos(fx_sub(fx_muli(a1, 2), fx_muli(a2, 2))))),
        );
        fx_div(num, den)
    }

    /// Velocity increment of the top bob over one step.
    pub fn calc_top_velocity(&self, a1: i64, a2: i64, time_step: i64) -> (r: i64)
        ensures
            r as int == top_vel_inc(self@, a1 as int, a2 as int, time_step as int),
    {
        proof {
            reveal(top_vel_inc);
        }
        let k1 = self.calc_top_acceleration(a1, a2, false);
        let h1 = fx_divi(fx_mul(time_step, k1), 2);
        let k2 = self.calc_top_acceleration(fx_add(a1, h1), fx_add(a2, h1), false);
        let h2 = fx_divi(fx_mul(time_step, k2), 2);
        let k3 = self.calc_top_acceleration(fx_add(a1, h2), fx_add(a2, h2), false);
        let k4 = self.calc_top_acceleration(fx_add(a1, time_step), fx_add(a2, time_step), false);
        fx_divi(fx_mul(time_step, fx_add(fx_add(fx_add(k1, fx_muli(k2, 2)), fx_muli(k3, 2)), k4)), 6)
    }

    /// Velocity increment of the bottom bob over one step.
    pub fn calc_bottom_velocity(&self, a1: i64, a2: i64, time_step: i64) -> (r: i64)
        ensures
            r as int == bottom_vel_inc(self@, a1 as int, a2 as int, time_step as int),
    {
        proof {
            reveal(bottom_vel_inc);
        }
        let k1 = self.calc_bottom_acceleration(a1, a2);
        let h1 = fx_divi(fx_mul(time_step, k1), 2);
        let k2 = self.calc_bottom_acceleration(fx_add(a1, h1), fx_add(a2, h1));
        let h2 = fx_divi(fx_mul(time_step, k2), 2);
        let k3 = self.calc_bottom_acceleration(fx_add(a1, h2), fx_add(a2, h2));
        let k4 = self.calc_bottom_acceleration(fx_add(a1, time_step), fx_add(a2, time_step));
        fx_divi(fx_mul(time_step, fx_add(fx_add(fx_add(k1, fx_muli(k2, 2)), fx_muli(k3, 2)), k4)), 6)
    }

    /// Angle increment of the top bob over one step.
    pub fn calc_top_angle(&self, a1: i64, a2: i64, time_step: i64) -> (r: i64)
        ensures
            r as int == top_ang_inc(self@, a1 as int, a2 as int, time_step as int),
    {
        proof {
            reveal(top_ang_inc);
        }
        let av = self.top.angle_velocity;
        let s1 = fx_add(av, self.calc_top_velocity(a1, a2, time_step));
        let h1 = fx_divi(fx_mul(time_step, s1), 2);
        let s2 = fx_add(av, self.calc_top_velocity(fx_add(a1, h1), fx_add(a2, h1), time_step));
        let h2 = fx_divi(fx_mul(time_step, s2), 2);
        let s3 = fx_add(av, self.calc_top_velocity(fx_add(a1, h2), fx_add(a2, h2), time_step));
        let s4 = fx_add(av, self.calc_top_velocity(fx_add(a1, time_step), fx_add(a2, time_step), time_step));
        fx_divi(fx_mul(time_step, fx_add(fx_add(fx_add(s1, fx_muli(s2, 2)), fx_muli(s3, 2)), s4)), 6)
    }

    /// Angle increment of the bottom bob over one step.
    pub fn calc_bottom_angle(&self, a1: i64, a2: i64, time_step: i64) -> (r: i64)
        ensures
            r as int == bottom_ang_inc(self@, a1 as int, a2 as int, time_step as int),
    {
        proof {
            reveal(bottom_ang_inc);
        }
        let av = self.bottom.angle_velocity;
        let s1 = fx_add(av, self.calc_bottom_velocity(a1, a2, time_step));
        let h1 = fx_divi(fx_mul(time_step, s1), 2);
        let s2 = fx_add(av, self.calc_bottom_velocity(fx_add(a1, h1), fx_add(a2, h1), time_step));
        let h2 = fx_divi(fx_mul(time_step, s2), 2);
        let s3 = fx_add(av, self.calc_bottom_velocity(fx_add(a1, h2), fx_add(a2, h2), time_step));
        let s4 = fx_add(av, self.calc_bottom_velocity(fx_add(a1, time_step), fx_add(a2, time_step), time_step));
        fx_divi(fx_mul(time_step, fx_add(fx_add(fx_add(s1, fx_muli(s2, 2)), fx_muli(s3, 2)), s4)), 6)
    }

    /// Recompute both Cartesian positions from the current angles, the
    /// bottom bob anchored at the top bob's position of the same tick.
    fn polar_to_cartesian(&mut self)
        ensures
            final(self)@ == recompute_positions(old(self)@),
    {
        self.top.x = fx_add(fx_mul(self.top.length, fx_sin(self.top.angle)), self.origin_x);
        self.top.y = fx_add(fx_mul(fx_neg(self.top.length), fx_cos(self.top.angle)), self.origin_y);
        self.bottom.x = fx_add(fx_mul(self.bottom.length, fx_sin(self.bottom.angle)), self.top.x);
        self.bottom.y = fx_add(fx_mul(fx_neg(self.bottom.length), fx_cos(self.bottom.angle)), self.top.y);
    }
}

} // verus!
