use rl::agent::{Agent, PolicyError, evaluate, play_game, policy_or_fallback};
use rl::mdp::MarkovDecisionProcess;
use rl::model_io::{ModelError, NamedTensor, TensorData};
use rl::mountaincar::{MountainAction, MountainCar, ParabolicGround};
use rl::rng::Prng;
use rl::tabular::{Tabular, pos_bucket, speed_bucket};

fn valley() -> ParabolicGround {
    ParabolicGround::new(500, 1000, 1000)
}

fn car_at(pos: i64, speed: i64) -> MountainCar<ParabolicGround> {
    MountainCar { pos, speed, ground: valley() }
}

fn table(name: &str, fill: i64) -> NamedTensor {
    NamedTensor {
        name: name.to_owned(),
        tensor: TensorData { dims: vec![10, 10], data: vec![fill; 100] },
    }
}

fn tabular_filled(l: i64, n: i64, r: i64) -> Tabular {
    let entries = vec![table("q_left", l), table("q_nothing", n), table("q_right", r)];
    Tabular::from_entries(&entries).unwrap()
}

// Out-of-range features never index outside the 10 by 10 tables: the
// bucket indices clamp for every real input.
#[test]
fn buckets_clamp_for_extreme_inputs() {
    assert_eq!(pos_bucket(1000), 9);
    assert_eq!(pos_bucket(-1000), 0);
    assert_eq!(pos_bucket(0), 0);
    assert_eq!(pos_bucket(449), 8);
    assert_eq!(speed_bucket(10_000), 0);
    assert_eq!(speed_bucket(-10_000), 9);
    assert_eq!(speed_bucket(0), 4);
}

#[test]
fn tabular_policy_survives_extreme_features() {
    let mut entries = vec![table("q_left", 0), table("q_nothing", 0), table("q_right", 0)];
    // Position 1.0 is beyond the top bucket and speed +10 is beyond
    // range: they clamp to the pair (9, 0).
    entries[2].tensor.data[9 * 10 + 0] = 5000;
    let agent = Tabular::from_entries(&entries).unwrap();
    let e = car_at(1000, 10_000);
    assert_eq!(agent.policy(&e), Ok(MountainAction::Right));
}

#[test]
fn tabular_tie_break_prefers_left_then_nothing() {
    let all_equal = tabular_filled(7, 7, 7);
    let e = car_at(100, 0);
    assert_eq!(all_equal.policy(&e), Ok(MountainAction::Left));
    let nothing_best = tabular_filled(0, 9, 5);
    assert_eq!(nothing_best.policy(&e), Ok(MountainAction::DoNothing));
    let right_best = tabular_filled(0, 1, 9);
    assert_eq!(right_best.policy(&e), Ok(MountainAction::Right));
}

#[test]
fn tabular_load_reports_missing_key() {
    let entries = vec![table("q_left", 0), table("q_right", 0)];
    assert_eq!(Tabular::from_entries(&entries).unwrap_err(), ModelError::MissingKey);
}

#[test]
fn tabular_load_reports_bad_shape() {
    let mut entries = vec![table("q_left", 0), table("q_nothing", 0), table("q_right", 0)];
    entries[1].tensor = TensorData { dims: vec![10, 9], data: vec![0; 90] };
    assert_eq!(Tabular::from_entries(&entries).unwrap_err(), ModelError::ShapeMismatch);
}

#[test]
fn tabular_load_reports_out_of_range_value() {
    let mut entries = vec![table("q_left", 0), table("q_nothing", 0), table("q_right", 0)];
    entries[0].tensor.data[3] = 2_000_000_000;
    assert_eq!(Tabular::from_entries(&entries).unwrap_err(), ModelError::ValueOutOfRange);
}

#[test]
fn policy_or_fallback_keeps_successful_choices() {
    let agent = tabular_filled(0, 9, 5);
    let e = car_at(100, 0);
    assert_eq!(policy_or_fallback(&agent, &e), MountainAction::DoNothing);
}

#[test]
fn play_game_on_finished_state_pays_nothing() {
    let agent = tabular_filled(0, 9, 5);
    let mut e = car_at(950, 0);
    assert!(e.is_finished());
    assert_eq!(play_game(&agent, &mut e, 100, 1000), Ok(0));
    assert_eq!(e.pos, 950);
}

#[test]
fn play_game_stops_at_the_step_cap() {
    // A do-nothing agent in the valley never reaches the goal, so the
    // episode runs exactly to the cap, paying -1 per step.
    let agent = tabular_filled(0, 9, 5);
    let mut e = car_at(275, 0);
    assert_eq!(play_game(&agent, &mut e, 100, 50), Ok(-50_000));
}

// The golden evaluation scenario: a fixed seed, a do-nothing agent,
// and a step cap give one exact total reward.
#[test]
fn evaluate_do_nothing_agent_is_deterministic() {
    let agent = tabular_filled(0, 9, 5);
    let mut e = car_at(0, 0);
    let mut rng = Prng::new(2024);
    let total = evaluate(&agent, &mut e, &mut rng, Some(3), 100, 50);
    assert_eq!(total, Ok(-150_000));
    let mut e2 = car_at(0, 0);
    let mut rng2 = Prng::new(2024);
    let total2 = evaluate(&agent, &mut e2, &mut rng2, Some(3), 100, 50);
    assert_eq!(total, total2);
    assert_eq!(e.pos, e2.pos);
    assert_eq!(e.speed, e2.speed);
}

#[test]
fn evaluate_defaults_to_one_thousand_episodes() {
    let agent = tabular_filled(0, 9, 5);
    let mut e = car_at(0, 0);
    let mut rng = Prng::new(5);
    let total = evaluate(&agent, &mut e, &mut rng, None, 100, 10);
    assert_eq!(total, Ok(-10_000_000));
}

#[test]
fn policy_error_message() {
    assert_eq!(PolicyError::ShapeMismatch.message(), "Policy evaluation failed: shape mismatch.");
}
