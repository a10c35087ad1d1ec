use rl::fixed::Vec2;
use rl::mdp::MarkovDecisionProcess;
use rl::mountaincar::{MountainAction, MountainCar, ParabolicGround};
use rl::ringpong::{RingPong, RingPongAction};
use rl::rng::Prng;

fn valley() -> ParabolicGround {
    ParabolicGround::new(500, 1000, 1000)
}

fn car_at(pos: i64, speed: i64) -> MountainCar<ParabolicGround> {
    MountainCar { pos, speed, ground: valley() }
}

#[test]
fn action_multipliers() {
    assert_eq!(MountainAction::Left.multiplier(), -1);
    assert_eq!(MountainAction::Right.multiplier(), 1);
    assert_eq!(MountainAction::DoNothing.multiplier(), 0);
    assert_eq!(RingPongAction::Left.multiplier(), -1);
    assert_eq!(RingPongAction::Right.multiplier(), 1);
    assert_eq!(RingPongAction::DoNothing.multiplier(), 0);
}

#[test]
fn mountaincar_step_exact_on_flat_ground() {
    let flat = ParabolicGround::new(0, 0, 1000);
    let mut e = MountainCar { pos: 500, speed: 0, ground: flat };
    let r = e.step(MountainAction::Right, 100);
    assert_eq!(r.unwrap(), -1000);
    assert_eq!(e.speed, 10);
    assert_eq!(e.pos, 501);
}

#[test]
fn mountaincar_feature_is_pos_and_speed() {
    let e = car_at(321, -45);
    assert_eq!(e.feature(), vec![321, -45]);
}

// A fixed action sequence from a fixed state yields one trajectory:
// two equal cars stay equal step by step.
#[test]
fn mountaincar_trajectory_is_deterministic() {
    let mut e1 = car_at(275, 0);
    let mut e2 = car_at(275, 0);
    for k in 0..200u32 {
        let a = match k % 3 {
            0 => MountainAction::Right,
            1 => MountainAction::Left,
            _ => MountainAction::DoNothing,
        };
        let r1 = e1.step(a, 100).unwrap();
        let r2 = e2.step(a, 100).unwrap();
        assert_eq!(r1, r2);
        assert_eq!(e1.pos, e2.pos);
        assert_eq!(e1.speed, e2.speed);
    }
}

// Fresh after reset the episode is not finished, and a constant
// rightward push reaches the goal well within the regression bound.
#[test]
fn mountaincar_constant_right_finishes() {
    let mut rng = Prng::new(42);
    let mut e = car_at(0, 0);
    e.reset(&mut rng);
    assert!(250 <= e.pos && e.pos < 300);
    assert_eq!(e.speed, 0);
    assert!(!e.is_finished());
    let mut steps = 0u32;
    while !e.is_finished() && steps < 10_000 {
        e.step(MountainAction::Right, 100).unwrap();
        steps += 1;
    }
    assert!(e.is_finished());
    assert!(e.pos > 900);
    assert!(steps < 10_000);
}

#[test]
fn mountaincar_new_draws_documented_range() {
    let mut rng = Prng::new(7);
    let e = MountainCar::new(valley(), &mut rng);
    assert!(450 <= e.pos && e.pos < 500);
    assert_eq!(e.speed, 0);
}

#[test]
fn ringpong_reset_is_centered_unit_speed() {
    let mut rng = Prng::new(9);
    let mut e = RingPong::default();
    e.reset(&mut rng);
    assert_eq!(e.ball_pos, Vec2 { x: 0, y: 0 });
    assert_eq!(e.paddle_angle, 0);
    assert!(!e.is_finished());
    let n2 = e.ball_speed.x * e.ball_speed.x + e.ball_speed.y * e.ball_speed.y;
    assert!(n2 <= 1_000_000);
    assert!(n2 > 995_000);
}

// A ball flying head-on at the center of a static paddle comes back
// exactly mirrored, with the collision strictly inside the step.
#[test]
fn ringpong_head_on_reflection_is_exact() {
    let mut e = RingPong {
        ball_pos: Vec2 { x: 280_000, y: 0 },
        ball_speed: Vec2 { x: 1000, y: 0 },
        paddle_angle: 0,
    };
    let r = e.step(RingPongAction::DoNothing, 100);
    assert_eq!(r.unwrap(), 1000);
    assert_eq!(e.ball_speed, Vec2 { x: -1000, y: 0 });
    assert_eq!(e.ball_pos, Vec2 { x: 289_000, y: 0 });
    assert_eq!(e.paddle_angle, 0);
}

// With the paddle parked on the far side the ball flies straight out
// and the episode ends exactly when it leaves the arena.
#[test]
fn ringpong_miss_finishes_once_outside() {
    let mut e = RingPong {
        ball_pos: Vec2 { x: 0, y: 0 },
        ball_speed: Vec2 { x: 1000, y: 0 },
        paddle_angle: 3142,
    };
    assert!(!e.is_finished());
    let mut steps = 0u32;
    while !e.is_finished() && steps < 1000 {
        e.step(RingPongAction::DoNothing, 100).unwrap();
        steps += 1;
    }
    assert!(e.is_finished());
    assert_eq!(steps, 31);
    assert_eq!(e.ball_pos, Vec2 { x: 310_000, y: 0 });
    assert_eq!(e.ball_speed, Vec2 { x: 1000, y: 0 });
}

#[test]
fn ringpong_feature_has_five_entries() {
    let e = RingPong {
        ball_pos: Vec2 { x: 1, y: 2 },
        ball_speed: Vec2 { x: 3, y: 4 },
        paddle_angle: 5,
    };
    assert_eq!(e.feature(), vec![1, 2, 3, 4, 5]);
}

#[test]
fn rng_is_reproducible() {
    let mut a = Prng::new(123);
    let mut b = Prng::new(123);
    for _ in 0..32 {
        let x = a.range(-1000, 1000);
        let y = b.range(-1000, 1000);
        assert_eq!(x, y);
        assert!(-1000 <= x && x < 1000);
    }
    let mut c = Prng::new(124);
    let mut diff = false;
    let mut a2 = Prng::new(123);
    for _ in 0..8 {
        if c.range(0, 1_000_000) != a2.range(0, 1_000_000) {
            diff = true;
        }
    }
    assert!(diff);
}
