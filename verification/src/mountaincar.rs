//! The mountain-car environment: a point mass on a one-dimensional
//! curved track, pushed by a weak motor against gravity and friction.
//!
//! Physical convention of this implementation (the variants of this
//! family differ; this one is fixed here): speed integrates
//! `multiplier * MOTOR_POWER - slope * GRAVITY - speed * FRICTION`,
//! position integrates `speed * derivative factor`, the reward is a
//! constant `-1` per step, the goal is `pos > GOAL_POS`, and `reset`
//! draws the start position from `[RESET_LO, RESET_HI)` and zeroes the
//! speed.  Updates saturate at the representable range instead of
//! overflowing.
use vstd::prelude::*;

verus! {

use crate::fixed::{RANGE_LIMIT, clamp, clamp_spec, fx_mul, fx_mul_spec, sat, sat_spec};
use crate::mdp::{MarkovDecisionProcess, NotAllowed};
use crate::rng::{Prng, range_spec, xorshift_spec};

/// Motor force multiplier, `0.1` units.
pub const MOTOR_POWER: i64 = 100;

/// Friction coefficient, `0.2` per unit of speed.
pub const FRICTION: i64 = 200;

/// Gravity coefficient, `0.15` per unit of slope.
pub const GRAVITY: i64 = 150;

/// The track position beyond which the episode is won, `0.9` units.
pub const GOAL_POS: i64 = 900;

/// Lower bound of the `reset` draw, `0.25` units.
pub const RESET_LO: i64 = 250;

/// Upper bound (exclusive) of the `reset` draw, `0.3` units.
pub const RESET_HI: i64 = 300;

/// Lower bound of the `new` draw, `0.45` units.
pub const NEW_LO: i64 = 450;

/// Upper bound (exclusive) of the `new` draw, `0.5` units.
pub const NEW_HI: i64 = 500;

/// Largest slope magnitude a ground may report.
pub const SLOPE_LIMIT: i64 = 10_000_000;

/// Largest derivative factor a ground may report.
pub const DERIV_LIMIT: i64 = 10_000_000;

/// The three moves of the mountain car.
#[derive(Clone, Copy, Debug, PartialEq, Eq, Structural)]
pub enum MountainAction {
    /// Push towards smaller positions.
    Left,
    /// Push towards larger positions.
    Right,
    /// Let the car coast.
    DoNothing,
}

impl MountainAction {
    /// The force multiplier of the action: `-1`, `+1` or `0`.
    pub open spec fn multiplier_spec(self) -> int {
        match self {
            MountainAction::Left => -1,
            MountainAction::Right => 1,
            MountainAction::DoNothing => 0,
        }
    }

    /// The force multiplier of the action.
    pub fn multiplier(self) -> (m: i64)
        ensures
            m == self.multiplier_spec(),
            -1 <= m <= 1,
    {
        match self {
            MountainAction::Left => -1,
            MountainAction::Right => 1,
            MountainAction::DoNothing => 0,
        }
    }
}

/// An immutable parametric track curve: at every position it reports a
/// tangent slope and an arc-length derivative factor, both bounded so
/// that the integrator's arithmetic stays in range.
pub trait Ground {
    /// The slope the curve reports at `x`.
    spec fn slope_spec(&self, x: i64) -> i64;

    /// The derivative factor the curve reports at `x`.
    spec fn deriv_spec(&self, x: i64) -> i64;

    /// The tangent slope of the track at position `x`, in thousandths.
    fn slope(&self, x: i64) -> (r: i64)
        requires
            -RANGE_LIMIT <= x <= RANGE_LIMIT,
        ensures
            r == self.slope_spec(x),
            -SLOPE_LIMIT <= r <= SLOPE_LIMIT,
    ;

    /// The arc-length derivative factor at position `x`, in
    /// thousandths (`1000` means motion is integrated unscaled).
    fn derivivative(&self, x: i64) -> (r: i64)
        requires
            -RANGE_LIMIT <= x <= RANGE_LIMIT,
        ensures
            r == self.deriv_spec(x),
            0 <= r <= DERIV_LIMIT,
    ;
}

/// A parabolic valley: the slope grows linearly with the distance from
/// the valley floor, clamped at the representable slope range, and the
/// derivative factor is constant.
pub struct ParabolicGround {
    center: i64,
    gain: i64,
    deriv: i64,
}

impl ParabolicGround {
    #[verifier::type_invariant]
    spec fn wf(self) -> bool {
        &&& -RANGE_LIMIT <= self.center <= RANGE_LIMIT
        &&& 0 <= self.gain <= 1_000_000
        &&& 0 <= self.deriv <= DERIV_LIMIT
    }

    /// Build a valley with floor at `center`, slope `gain` per unit of
    /// distance, and constant derivative factor `deriv`.
    pub fn new(center: i64, gain: i64, deriv: i64) -> (r: ParabolicGround)
        requires
            -RANGE_LIMIT <= center <= RANGE_LIMIT,
            0 <= gain <= 1_000_000,
            0 <= deriv <= DERIV_LIMIT,
        ensures
            forall|x: i64|
                #![trigger r.slope_spec(x)]
                r.slope_spec(x) == clamp_spec(
                    fx_mul_spec(x - center, gain as int),
                    -SLOPE_LIMIT as int,
                    SLOPE_LIMIT as int,
                ),
            forall|x: i64| #![trigger r.deriv_spec(x)] r.deriv_spec(x) == deriv,
    {
        ParabolicGround { center, gain, deriv }
    }
}

impl Ground for ParabolicGround {
    closed spec fn slope_spec(&self, x: i64) -> i64 {
        clamp_spec(fx_mul_spec(x - self.center, self.gain as int), -SLOPE_LIMIT as int, SLOPE_LIMIT as int) as i64
    }

    closed spec fn deriv_spec(&self, x: i64) -> i64 {
        self.deriv
    }

    fn slope(&self, x: i64) -> (r: i64) {
        proof {
            use_type_invariant(&*self);
        }
        let dx = x - self.center;
        let s = fx_mul(dx, self.gain);
        clamp(s, -SLOPE_LIMIT, SLOPE_LIMIT)
    }

    fn derivivative(&self, x: i64) -> (r: i64) {
        proof {
            use_type_invariant(&*self);
        }
        self.deriv
    }
}

/// The mountain-car state: a position and a speed on a track curve.
pub struct MountainCar<T> where T: Ground {
    /// Position along the track, in thousandths of a unit.
    pub pos: i64,
    /// Speed along the track, in thousandths of a unit per second.
    pub speed: i64,
    /// The immutable track curve.
    pub ground: T,
}

impl<T: Ground> MountainCar<T> {
    /// Build a car on ground `g` with a start position drawn from
    /// `[NEW_LO, NEW_HI)` and zero speed.
    pub fn new(g: T, rng: &mut Prng) -> (r: Self)
        ensures
            r.inv(),
            r.pos == range_spec(old(rng).state, NEW_LO as int, NEW_HI as int),
            r.speed == 0,
            r.ground == g,
            final(rng).state == xorshift_spec(old(rng).state),
    {
        let pos = rng.range(NEW_LO, NEW_HI);
        MountainCar { pos, speed: 0, ground: g }
    }

    /// The speed after one step: the motor, gravity and friction
    /// forces integrated over the time step, saturated.
    pub open spec fn next_speed_spec(&self, a: MountainAction, time_step: i64) -> int {
        let slope = self.slope_at_spec();
        let accel = a.multiplier_spec() * MOTOR_POWER - fx_mul_spec(slope as int, GRAVITY as int)
            - fx_mul_spec(self.speed as int, FRICTION as int);
        sat_spec(self.speed + fx_mul_spec(time_step as int, accel))
    }

    /// The position after one step: the new speed, rescaled by the
    /// track's derivative factor, integrated over the time step,
    /// saturated.
    pub open spec fn next_pos_spec(&self, a: MountainAction, time_step: i64) -> int {
        let moved = fx_mul_spec(
            fx_mul_spec(time_step as int, self.next_speed_spec(a, time_step)),
            self.ground.deriv_spec(self.pos) as int,
        );
        sat_spec(self.pos + moved)
    }

    /// The slope of the ground under the car.
    pub open spec fn slope_at_spec(&self) -> i64 {
        self.ground.slope_spec(self.pos)
    }
}

impl<T: Ground> MarkovDecisionProcess for MountainCar<T> {
    type Action = MountainAction;

    open spec fn inv(&self) -> bool {
        &&& -RANGE_LIMIT <= self.pos <= RANGE_LIMIT
        &&& -RANGE_LIMIT <= self.speed <= RANGE_LIMIT
    }

    open spec fn finished_spec(&self) -> bool {
        self.pos > GOAL_POS
    }

    open spec fn next_spec(&self, a: MountainAction, time_step: i64) -> Self {
        MountainCar {
            pos: self.next_pos_spec(a, time_step) as i64,
            speed: self.next_speed_spec(a, time_step) as i64,
            ground: self.ground,
        }
    }

    open spec fn reward_spec(&self, a: MountainAction, time_step: i64) -> i64 {
        (-1000) as i64
    }

    open spec fn feature_spec(&self) -> Seq<i64> {
        seq![self.pos, self.speed]
    }

    open spec fn reset_spec(&self, rng: Prng) -> (Self, Prng) {
        (
            MountainCar {
                pos: range_spec(rng.state, RESET_LO as int, RESET_HI as int) as i64,
                speed: 0,
                ground: self.ground,
            },
            Prng { state: xorshift_spec(rng.state) },
        )
    }

    open spec fn fallback_action_spec() -> MountainAction {
        MountainAction::DoNothing
    }

    proof fn lemma_step_preserves(&self, a: MountainAction, time_step: i64) {
    }

    proof fn lemma_reset_preserves(&self, rng: Prng) {
    }

    fn reset(&mut self, rng: &mut Prng) {
        self.pos = rng.range(RESET_LO, RESET_HI);
        self.speed = 0;
    }

    fn step(&mut self, a: MountainAction, time_step: i64) -> (r: Result<
        i64,
        NotAllowed<MountainAction>,
    >) {
        let slope = self.ground.slope(self.pos);
        let m = a.multiplier();
        let accel = m * MOTOR_POWER - fx_mul(slope, GRAVITY) - fx_mul(self.speed, FRICTION);
        let dv = fx_mul(time_step, accel);
        self.speed = sat(self.speed + dv);
        proof {
            assert(-1_000_000_000_000 <= time_step as int * self.speed as int
                <= 1_000_000_000_000) by (nonlinear_arith)
                requires
                    0 < time_step <= 1000,
                    -RANGE_LIMIT <= self.speed <= RANGE_LIMIT,
            ;
        }
        let scaled_speed = fx_mul(time_step, self.speed);
        let d = self.ground.derivivative(self.pos);
        let moved = fx_mul(scaled_speed, d);
        self.pos = sat(self.pos + moved);
        Ok(-1000)
    }

    fn is_finished(&self) -> (r: bool) {
        self.pos > GOAL_POS
    }

    fn feature(&self) -> (r: Vec<i64>) {
        let mut v: Vec<i64> = Vec::new();
        v.push(self.pos);
        v.push(self.speed);
        proof {
            assert(v@ =~= seq![self.pos, self.speed]);
        }
        v
    }

    fn fallback_action() -> (a: MountainAction) {
        MountainAction::DoNothing
    }
}

/// A trajectory: the state after playing a whole action sequence from
/// `e` with a fixed time step.
pub open spec fn run_spec<T: Ground>(
    e: MountainCar<T>,
    actions: Seq<MountainAction>,
    time_step: i64,
) -> MountainCar<T>
    decreases actions.len(),
{
    if actions.len() == 0 {
        e
    } else {
        run_spec(e.next_spec(actions[0], time_step), actions.skip(1), time_step)
    }
}

/// Determinism of the dynamics: two cars in equal states, on the same
/// ground, driven with the same action sequence and time step, follow
/// exactly the same trajectory.  There is no hidden randomness after
/// `reset`: a trajectory is a mathematical function of the start
/// state, the action sequence and the time step.
pub proof fn lemma_trajectory_deterministic<T: Ground>(
    e1: MountainCar<T>,
    e2: MountainCar<T>,
    actions: Seq<MountainAction>,
    time_step: i64,
)
    requires
        e1 == e2,
    ensures
        run_spec(e1, actions, time_step) == run_spec(e2, actions, time_step),
{
}

} // verus!
