//! The ring-pong environment: a ball bouncing inside a circular arena,
//! deflected by a paddle arc that rotates along the boundary.
//!
//! Physical convention of this implementation: the paddle is the chord
//! between its two arc endpoints; one step first rotates the paddle,
//! then intersects the ball's straight travel with the line through
//! that chord by the classical cross-product ratio.  A ratio strictly
//! between `0` and `1` is an in-step collision: the ball advances to
//! the collision point, its velocity is mirrored across the paddle's
//! instantaneous direction and negated, and the remaining fraction of
//! the step is travelled with the new velocity.  Otherwise the ball
//! travels the full step unchanged.  The reward is a constant `+1` per
//! step and the episode ends once the ball leaves the arena.
use vstd::prelude::*;

verus! {

use crate::fixed::{
    RANGE_LIMIT, SCALE, TAU_M, Vec2, clamp, clamp_spec, fx_cos, fx_cos_spec, fx_div, fx_div_spec,
    fx_mul, fx_mul_spec, fx_sin, fx_sin_spec, isqrt, isqrt_spec, lemma_isqrt_exists, rem_pos,
    sat, sat_spec,
};
use crate::mdp::{MarkovDecisionProcess, NotAllowed};
use crate::rng::{Prng, range_spec, xorshift_spec};

/// Radius of the arena, `300` units.
pub const RADIUS: i64 = 300_000;

/// Half-angle of the paddle arc, `pi / 12` in milli-radians.
pub const THETA: i64 = 262;

/// Factor converting the ball's unit velocity into distance per
/// second, `100` units.
pub const SPEED: i64 = 100_000;

/// Largest velocity component magnitude the state may hold; the
/// reflection clamps here instead of overflowing.
pub const VEL_LIMIT: i64 = 2_000_000;

/// The three moves of the ring-pong paddle.
#[derive(Clone, Copy, Debug, PartialEq, Eq, Structural)]
pub enum RingPongAction {
    /// Rotate the paddle towards smaller angles.
    Left,
    /// Rotate the paddle towards larger angles.
    Right,
    /// Keep the paddle still.
    DoNothing,
}

impl RingPongAction {
    /// The rotation multiplier of the action: `-1`, `+1` or `0`.
    pub open spec fn multiplier_spec(self) -> int {
        match self {
            RingPongAction::Left => -1,
            RingPongAction::Right => 1,
            RingPongAction::DoNothing => 0,
        }
    }

    /// The rotation multiplier of the action.
    pub fn multiplier(self) -> (m: i64)
        ensures
            m == self.multiplier_spec(),
            -1 <= m <= 1,
    {
        match self {
            RingPongAction::Left => -1,
            RingPongAction::Right => 1,
            RingPongAction::DoNothing => 0,
        }
    }
}

/// Horizontal coordinate of the boundary point at the given angle.
pub open spec fn circle_x_spec(ang: int) -> int {
    fx_mul_spec(RADIUS as int, fx_cos_spec(ang))
}

/// Vertical coordinate of the boundary point at the given angle.
pub open spec fn circle_y_spec(ang: int) -> int {
    fx_mul_spec(RADIUS as int, fx_sin_spec(ang))
}

/// The point of the arena boundary at the given milli-radian angle.
pub fn circle_point(ang: i64) -> (p: Vec2)
    requires
        -10_000_000 <= ang <= 10_000_000,
    ensures
        p.x == circle_x_spec(ang as int),
        p.y == circle_y_spec(ang as int),
        -RADIUS <= p.x <= RADIUS,
        -RADIUS <= p.y <= RADIUS,
{
    let c = fx_cos(ang);
    let s = fx_sin(ang);
    Vec2 { x: fx_mul(RADIUS, c), y: fx_mul(RADIUS, s) }
}

/// The fraction, in thousandths, at which the ball's travel crosses
/// the paddle line: the cross-product ratio with the denominator
/// normalized to be positive.
pub open spec fn ratio_spec(num: int, den: int) -> int {
    if den > 0 {
        fx_div_spec(num, den)
    } else {
        fx_div_spec(-num, -den)
    }
}

/// The cross-product ratio of two bounded operands.
pub fn ratio(num: i64, den: i64) -> (r: i64)
    requires
        den != 0,
        -4_000_000_000_000_000 <= num <= 4_000_000_000_000_000,
        -4_000_000_000_000_000 <= den <= 4_000_000_000_000_000,
    ensures
        r == ratio_spec(num as int, den as int),
{
    if den > 0 {
        fx_div(num, den)
    } else {
        fx_div(-num, -den)
    }
}

/// Horizontal component of the mirrored velocity, before rescaling:
/// the reflection across the direction whose doubled angle has cosine
/// `c2` and sine `s2`, followed by negation.
pub open spec fn refl_x_raw(c2: int, s2: int, vx: int, vy: int) -> int {
    -(c2 * vx + s2 * vy)
}

/// Vertical component of the mirrored velocity, before rescaling.
pub open spec fn refl_y_raw(c2: int, s2: int, vx: int, vy: int) -> int {
    -(s2 * vx - c2 * vy)
}

/// The mirror law preserves energy: the squared norm of the raw
/// mirrored velocity is the squared norm of the incoming velocity
/// scaled by the squared norm of the `(c2, s2)` direction.  For a
/// direction on the unit milli-circle that scale is exactly
/// `SCALE * SCALE`: the reflection changes the direction of travel
/// and nothing else.
pub proof fn lemma_reflection_preserves_energy(c2: int, s2: int, vx: int, vy: int)
    ensures
        refl_x_raw(c2, s2, vx, vy) * refl_x_raw(c2, s2, vx, vy) + refl_y_raw(c2, s2, vx, vy)
            * refl_y_raw(c2, s2, vx, vy) == (c2 * c2 + s2 * s2) * (vx * vx + vy * vy),
{
    let a = c2 * vx + s2 * vy;
    let b = s2 * vx - c2 * vy;
    let p = c2 * vx;
    let q = s2 * vy;
    let u = s2 * vx;
    let w = c2 * vy;
    assert(a * a == p * p + 2 * (p * q) + q * q) by (nonlinear_arith)
        requires
            a == p + q,
    ;
    assert(b * b == u * u - 2 * (u * w) + w * w) by (nonlinear_arith)
        requires
            b == u - w,
    ;
    assert(p * p == (c2 * c2) * (vx * vx)) by (nonlinear_arith)
        requires
            p == c2 * vx,
    ;
    assert(q * q == (s2 * s2) * (vy * vy)) by (nonlinear_arith)
        requires
            q == s2 * vy,
    ;
    assert(u * u == (s2 * s2) * (vx * vx)) by (nonlinear_arith)
        requires
            u == s2 * vx,
    ;
    assert(w * w == (c2 * c2) * (vy * vy)) by (nonlinear_arith)
        requires
            w == c2 * vy,
    ;
    assert(p * q == u * w) by (nonlinear_arith)
        requires
            p == c2 * vx,
            q == s2 * vy,
            u == s2 * vx,
            w == c2 * vy,
    ;
    assert((c2 * c2 + s2 * s2) * (vx * vx + vy * vy) == (c2 * c2) * (vx * vx) + (c2 * c2) * (vy
        * vy) + (s2 * s2) * (vx * vx) + (s2 * s2) * (vy * vy)) by (nonlinear_arith);
    assert((-a) * (-a) == a * a && (-b) * (-b) == b * b) by (nonlinear_arith);
}

/// The mirror law is an involution: mirroring the mirrored velocity
/// across the same paddle direction gives back the incoming velocity,
/// scaled by the squared norm of the `(c2, s2)` direction.  This is
/// the Cartesian form of `new_angle == 2 * paddle_angle + pi -
/// old_angle`: applying the angle map twice returns the old angle.
pub proof fn lemma_reflection_involutive(c2: int, s2: int, vx: int, vy: int)
    ensures
        refl_x_raw(c2, s2, refl_x_raw(c2, s2, vx, vy), refl_y_raw(c2, s2, vx, vy)) == (c2 * c2 + s2
            * s2) * vx,
        refl_y_raw(c2, s2, refl_x_raw(c2, s2, vx, vy), refl_y_raw(c2, s2, vx, vy)) == (c2 * c2 + s2
            * s2) * vy,
{
    assert(-(c2 * (-(c2 * vx + s2 * vy)) + s2 * (-(s2 * vx - c2 * vy))) == (c2 * c2 + s2 * s2)
        * vx) by (nonlinear_arith);
    assert(-(s2 * (-(c2 * vx + s2 * vy)) - c2 * (-(s2 * vx - c2 * vy))) == (c2 * c2 + s2 * s2)
        * vy) by (nonlinear_arith);
}

/// A ball flying head-on at a paddle that stands at angle zero comes
/// back exactly mirrored: the horizontal velocity is negated and the
/// vertical velocity is kept, with no rounding loss.
pub proof fn lemma_head_on_reflection(vx: int, vy: int)
    ensures
        refl_x_raw(SCALE as int, 0, vx, vy) / (SCALE as int) == -vx,
        refl_y_raw(SCALE as int, 0, vx, vy) / (SCALE as int) == vy,
{
    assert(refl_x_raw(SCALE as int, 0, vx, vy) == -1000 * vx);
    assert(refl_y_raw(SCALE as int, 0, vx, vy) == 1000 * vy);
    assert((-1000 * vx) / 1000 == -vx) by (nonlinear_arith);
    assert((1000 * vy) / 1000 == vy) by (nonlinear_arith);
}

/// The ring-pong state: ball position, ball velocity, paddle angle.
pub struct RingPong {
    /// The ball's position, confined to the arena until the episode
    /// ends.
    pub ball_pos: Vec2,
    /// The ball's velocity direction, roughly on the unit circle.
    pub ball_speed: Vec2,
    /// The paddle center's angle on the boundary, reduced into
    /// `[0, TAU_M)`.
    pub paddle_angle: i64,
}

impl RingPong {
    /// Build a fresh game: ball at the center, unit velocity with a
    /// random horizontal component, paddle at angle zero.
    pub fn new(rng: &mut Prng) -> (r: RingPong)
        ensures
            r.inv(),
            (r, *final(rng)) == RingPong::fresh_spec(*old(rng)),
    {
        let vx = rng.range(-SCALE, SCALE);
        proof {
            assert(0 <= vx as int * vx as int <= 1_000_000) by (nonlinear_arith)
                requires
                    -1000 <= vx <= 1000,
            ;
        }
        let sq = 1_000_000 - vx * vx;
        let vy = isqrt(sq as u64);
        proof {
            assert(vy as int <= 1000) by (nonlinear_arith)
                requires
                    vy as int * vy as int <= 1_000_000,
                    vy >= 0,
            ;
        }
        RingPong {
            ball_pos: Vec2 { x: 0, y: 0 },
            ball_speed: Vec2 { x: vx, y: vy as i64 },
            paddle_angle: 0,
        }
    }

    /// The state `new` and `reset` produce from the given random
    /// source, together with the advanced source: ball at the center,
    /// horizontal velocity drawn from `[-SCALE, SCALE)`, vertical
    /// velocity completing it to a unit vector, paddle at angle zero.
    pub open spec fn fresh_spec(rng: Prng) -> (RingPong, Prng) {
        let vx = range_spec(rng.state, -SCALE as int, SCALE as int);
        let vy = isqrt_spec(1_000_000 - vx * vx);
        (
            RingPong {
                ball_pos: Vec2 { x: 0, y: 0 },
                ball_speed: Vec2 { x: vx as i64, y: vy as i64 },
                paddle_angle: 0,
            },
            Prng { state: xorshift_spec(rng.state) },
        )
    }

    /// The paddle angle after one step: rotated by the action and
    /// reduced onto the circle.
    pub open spec fn next_angle_spec(&self, a: RingPongAction, time_step: i64) -> int {
        (self.paddle_angle + time_step * a.multiplier_spec()) % (TAU_M as int)
    }
}

impl Default for RingPong {
    /// The deterministic starting state: ball at the center moving
    /// exactly rightward, paddle at angle zero.
    fn default() -> (r: RingPong)
        ensures
            r == (RingPong {
                ball_pos: Vec2 { x: 0, y: 0 },
                ball_speed: Vec2 { x: SCALE, y: 0 },
                paddle_angle: 0,
            }),
            r.inv(),
    {
        RingPong {
            ball_pos: Vec2 { x: 0, y: 0 },
            ball_speed: Vec2 { x: SCALE, y: 0 },
            paddle_angle: 0,
        }
    }
}

impl MarkovDecisionProcess for RingPong {
    type Action = RingPongAction;

    open spec fn inv(&self) -> bool {
        &&& -RANGE_LIMIT <= self.ball_pos.x <= RANGE_LIMIT
        &&& -RANGE_LIMIT <= self.ball_pos.y <= RANGE_LIMIT
        &&& -VEL_LIMIT <= self.ball_speed.x <= VEL_LIMIT
        &&& -VEL_LIMIT <= self.ball_speed.y <= VEL_LIMIT
        &&& 0 <= self.paddle_angle < TAU_M
    }

    open spec fn finished_spec(&self) -> bool {
        self.ball_pos.x * self.ball_pos.x + self.ball_pos.y * self.ball_pos.y > (RADIUS as int)
            * (RADIUS as int)
    }

    open spec fn next_spec(&self, a: RingPongAction, time_step: i64) -> Self {
        let ang = self.next_angle_spec(a, time_step);
        let p1x = circle_x_spec(ang - THETA);
        let p1y = circle_y_spec(ang - THETA);
        let p2x = circle_x_spec(ang + THETA);
        let p2y = circle_y_spec(ang + THETA);
        let dx = p2x - p1x;
        let dy = p2y - p1y;
        let step_len = fx_mul_spec(SPEED as int, time_step as int);
        let mvx = fx_mul_spec(step_len, self.ball_speed.x as int);
        let mvy = fx_mul_spec(step_len, self.ball_speed.y as int);
        let num = (p1x - self.ball_pos.x) * dy - (p1y - self.ball_pos.y) * dx;
        let den = mvx * dy - mvy * dx;
        if den != 0 && 0 < ratio_spec(num, den) < 1000 {
            let tf = ratio_spec(num, den);
            let bx1 = sat_spec(self.ball_pos.x + fx_mul_spec(mvx, tf));
            let by1 = sat_spec(self.ball_pos.y + fx_mul_spec(mvy, tf));
            let c2 = fx_cos_spec(2 * ang);
            let s2 = fx_sin_spec(2 * ang);
            let rvx = clamp_spec(
                refl_x_raw(c2, s2, self.ball_speed.x as int, self.ball_speed.y as int) / (
                SCALE as int),
                -VEL_LIMIT as int,
                VEL_LIMIT as int,
            );
            let rvy = clamp_spec(
                refl_y_raw(c2, s2, self.ball_speed.x as int, self.ball_speed.y as int) / (
                SCALE as int),
                -VEL_LIMIT as int,
                VEL_LIMIT as int,
            );
            let mv2x = fx_mul_spec(step_len, rvx);
            let mv2y = fx_mul_spec(step_len, rvy);
            let bx2 = sat_spec(bx1 + fx_mul_spec(mv2x, 1000 - tf));
            let by2 = sat_spec(by1 + fx_mul_spec(mv2y, 1000 - tf));
            RingPong {
                ball_pos: Vec2 { x: bx2 as i64, y: by2 as i64 },
                ball_speed: Vec2 { x: rvx as i64, y: rvy as i64 },
                paddle_angle: ang as i64,
            }
        } else {
            RingPong {
                ball_pos: Vec2 {
                    x: sat_spec(self.ball_pos.x + mvx) as i64,
                    y: sat_spec(self.ball_pos.y + mvy) as i64,
                },
                ball_speed: self.ball_speed,
                paddle_angle: ang as i64,
            }
        }
    }

    open spec fn reward_spec(&self, a: RingPongAction, time_step: i64) -> i64 {
        1000
    }

    open spec fn feature_spec(&self) -> Seq<i64> {
        seq![
            self.ball_pos.x,
            self.ball_pos.y,
            self.ball_speed.x,
            self.ball_speed.y,
            self.paddle_angle,
        ]
    }

    open spec fn reset_spec(&self, rng: Prng) -> (Self, Prng) {
        RingPong::fresh_spec(rng)
    }

    open spec fn fallback_action_spec() -> RingPongAction {
        RingPongAction::DoNothing
    }

    proof fn lemma_step_preserves(&self, a: RingPongAction, time_step: i64) {
    }

    proof fn lemma_reset_preserves(&self, rng: Prng) {
        let vx = range_spec(rng.state, -SCALE as int, SCALE as int);
        assert(0 <= 1_000_000 - vx * vx <= 1_000_000) by (nonlinear_arith)
            requires
                -1000 <= vx < 1000,
        ;
        lemma_isqrt_exists(1_000_000 - vx * vx);
        let vy = isqrt_spec(1_000_000 - vx * vx);
        assert(0 <= vy <= 1000) by (nonlinear_arith)
            requires
                0 <= vy,
                vy * vy <= 1_000_000,
        ;
    }

    fn reset(&mut self, rng: &mut Prng) {
        let fresh = RingPong::new(rng);
        self.ball_pos = fresh.ball_pos;
        self.ball_speed = fresh.ball_speed;
        self.paddle_angle = fresh.paddle_angle;
    }

    fn step(&mut self, a: RingPongAction, time_step: i64) -> (r: Result<
        i64,
        NotAllowed<RingPongAction>,
    >) {
        let m = a.multiplier();
        proof {
            assert(-1000 <= time_step as int * m as int <= 1000) by (nonlinear_arith)
                requires
                    0 < time_step <= 1000,
                    -1 <= m <= 1,
            ;
        }
        let ang = rem_pos(self.paddle_angle + time_step * m, TAU_M);
        let p1 = circle_point(ang - THETA);
        let p2 = circle_point(ang + THETA);
        let dx = p2.x - p1.x;
        let dy = p2.y - p1.y;
        let step_len = fx_mul(SPEED, time_step);
        proof {
            assert(-200_000_000_000 <= step_len as int * self.ball_speed.x as int
                <= 200_000_000_000 && -200_000_000_000 <= step_len as int
                * self.ball_speed.y as int <= 200_000_000_000) by (nonlinear_arith)
                requires
                    0 <= step_len <= 100_000,
                    -VEL_LIMIT <= self.ball_speed.x <= VEL_LIMIT,
                    -VEL_LIMIT <= self.ball_speed.y <= VEL_LIMIT,
            ;
        }
        let mvx = fx_mul(step_len, self.ball_speed.x);
        let mvy = fx_mul(step_len, self.ball_speed.y);
        let q1x = p1.x - self.ball_pos.x;
        let q1y = p1.y - self.ball_pos.y;
        proof {
            assert(-800_000_000_000_000 <= q1x as int * dy as int <= 800_000_000_000_000
                && -800_000_000_000_000 <= q1y as int * dx as int <= 800_000_000_000_000) by (
            nonlinear_arith)
                requires
                    -1_000_300_000 <= q1x <= 1_000_300_000,
                    -1_000_300_000 <= q1y <= 1_000_300_000,
                    -600_000 <= dx <= 600_000,
                    -600_000 <= dy <= 600_000,
            ;
            assert(-200_000_000_000_000 <= mvx as int * dy as int <= 200_000_000_000_000
                && -200_000_000_000_000 <= mvy as int * dx as int <= 200_000_000_000_000) by (
            nonlinear_arith)
                requires
                    -200_000_000 <= mvx <= 200_000_000,
                    -200_000_000 <= mvy <= 200_000_000,
                    -600_000 <= dx <= 600_000,
                    -600_000 <= dy <= 600_000,
            ;
        }
        let num = q1x * dy - q1y * dx;
        let den = mvx * dy - mvy * dx;
        let mut hit = false;
        let mut tf: i64 = 0;
        if den != 0 {
            tf = ratio(num, den);
            if 0 < tf && tf < 1000 {
                hit = true;
            }
        }
        if hit {
            let bx1 = sat(self.ball_pos.x + fx_mul(mvx, tf));
            let by1 = sat(self.ball_pos.y + fx_mul(mvy, tf));
            let c2 = fx_cos(2 * ang);
            let s2 = fx_sin(2 * ang);
            proof {
                assert(-2_000_000_000 <= c2 as int * self.ball_speed.x as int <= 2_000_000_000
                    && -2_000_000_000 <= s2 as int * self.ball_speed.y as int <= 2_000_000_000
                    && -2_000_000_000 <= s2 as int * self.ball_speed.x as int <= 2_000_000_000
                    && -2_000_000_000 <= c2 as int * self.ball_speed.y as int <= 2_000_000_000) by (
                nonlinear_arith)
                    requires
                        -1000 <= c2 <= 1000,
                        -1000 <= s2 <= 1000,
                        -VEL_LIMIT <= self.ball_speed.x <= VEL_LIMIT,
                        -VEL_LIMIT <= self.ball_speed.y <= VEL_LIMIT,
                ;
            }
            let rx_sum = c2 * self.ball_speed.x + s2 * self.ball_speed.y;
            let ry_sum = s2 * self.ball_speed.x - c2 * self.ball_speed.y;
            let rvx = clamp(crate::fixed::div_pos(-rx_sum, SCALE), -VEL_LIMIT, VEL_LIMIT);
            let rvy = clamp(crate::fixed::div_pos(-ry_sum, SCALE), -VEL_LIMIT, VEL_LIMIT);
            proof {
                assert(-200_000_000_000 <= step_len as int * rvx as int <= 200_000_000_000
                    && -200_000_000_000 <= step_len as int * rvy as int <= 200_000_000_000) by (
                nonlinear_arith)
                    requires
                        0 <= step_len <= 100_000,
                        -VEL_LIMIT <= rvx <= VEL_LIMIT,
                        -VEL_LIMIT <= rvy <= VEL_LIMIT,
                ;
            }
            let mv2x = fx_mul(step_len, rvx);
            let mv2y = fx_mul(step_len, rvy);
            let bx2 = sat(bx1 + fx_mul(mv2x, 1000 - tf));
            let by2 = sat(by1 + fx_mul(mv2y, 1000 - tf));
            self.ball_pos = Vec2 { x: bx2, y: by2 };
            self.ball_speed = Vec2 { x: rvx, y: rvy };
            self.paddle_angle = ang;
        } else {
            self.ball_pos = Vec2 {
                x: sat(self.ball_pos.x + mvx),
                y: sat(self.ball_pos.y + mvy),
            };
            self.paddle_angle = ang;
        }
        Ok(1000)
    }

    fn is_finished(&self) -> (r: bool) {
        proof {
            assert(self.ball_pos.x as int * self.ball_pos.x as int <= 1_000_000_000_000_000_000
                && self.ball_pos.y as int * self.ball_pos.y as int <= 1_000_000_000_000_000_000
                && self.ball_pos.x as int * self.ball_pos.x as int >= 0
                && self.ball_pos.y as int * self.ball_pos.y as int >= 0) by (nonlinear_arith)
                requires
                    -RANGE_LIMIT <= self.ball_pos.x <= RANGE_LIMIT,
                    -RANGE_LIMIT <= self.ball_pos.y <= RANGE_LIMIT,
            ;
        }
        let sq = self.ball_pos.x * self.ball_pos.x + self.ball_pos.y * self.ball_pos.y;
        sq > RADIUS * RADIUS
    }

    fn feature(&self) -> (r: Vec<i64>) {
        let mut v: Vec<i64> = Vec::new();
        v.push(self.ball_pos.x);
        v.push(self.ball_pos.y);
        v.push(self.ball_speed.x);
        v.push(self.ball_speed.y);
        v.push(self.paddle_angle);
        proof {
            assert(v@ =~= self.feature_spec());
        }
        v
    }

    fn fallback_action() -> (a: RingPongAction) {
        RingPongAction::DoNothing
    }
}

} // verus!
