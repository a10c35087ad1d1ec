//! The agent contract and the Monte-Carlo evaluation protocol.
//!
//! An agent chooses actions from environment states through `policy`.
//! `play_game` drives one episode to termination (or to an explicit
//! step cap, the driver-imposed cutoff made explicit), summing the
//! rewards; `evaluate` repeats `reset` plus `play_game` for a number
//! of independent episodes and sums the episode rewards.  A failing
//! policy evaluation never aborts an episode: the environment's
//! fallback action is substituted and the episode continues.  Both
//! drivers are pinned to recursive spec-level rollouts, so the score
//! of an agent on an environment is an exact mathematical function of
//! the starting state, the random source and the parameters.
use vstd::prelude::*;

verus! {

use crate::mdp::{MarkovDecisionProcess, NotAllowed, REWARD_LIMIT, TIME_STEP_MAX};
use crate::rng::Prng;

/// Largest accepted per-episode step cap.
pub const STEP_CAP_MAX: u64 = 1_000_000;

/// Episodes `evaluate` plays when no count is given.
pub const EPISODES_DEFAULT: u32 = 1000;

/// Largest accepted episode count.
pub const EPISODES_MAX: u32 = 1_000_000;

/// Why a policy evaluation failed.
#[derive(Clone, Copy, Debug, PartialEq, Eq, Structural)]
pub enum PolicyError {
    /// The agent's parameters do not fit the feature vector it was
    /// handed.
    ShapeMismatch,
}

impl PolicyError {
    /// A human-readable description of the failure.
    pub fn message(&self) -> (s: String)
        ensures
            s@ == "Policy evaluation failed: shape mismatch."@,
    {
        "Policy evaluation failed: shape mismatch.".to_owned()
    }
}

/// An agent: a pure mapping from environment states to actions.
pub trait Agent<T: MarkovDecisionProcess>: Sized {
    /// Well-formedness of the agent's parameters.
    spec fn wf(&self) -> bool;

    /// The action (or failure) the agent chooses in state `e`.
    spec fn policy_spec(&self, e: T) -> Result<T::Action, PolicyError>;

    /// Choose an action for the current state.  A failure reports
    /// malformed numerics; callers substitute the environment's
    /// fallback action.
    fn policy(&self, e: &T) -> (r: Result<T::Action, PolicyError>)
        requires
            self.wf(),
            e.inv(),
        ensures
            r == self.policy_spec(*e),
    ;
}

/// The action the evaluation protocol plays in state `e`: the agent's
/// choice, or the environment's fallback when the policy fails.
pub open spec fn chosen_action_spec<T: MarkovDecisionProcess, A: Agent<T>>(
    agent: A,
    e: T,
) -> T::Action {
    match agent.policy_spec(e) {
        Ok(a) => a,
        Err(_) => T::fallback_action_spec(),
    }
}

/// Total reward of one episode played from `e` for at most `fuel`
/// steps.
pub open spec fn rollout_reward<T: MarkovDecisionProcess, A: Agent<T>>(
    agent: A,
    e: T,
    time_step: i64,
    fuel: nat,
) -> int
    decreases fuel,
{
    if fuel == 0 || e.finished_spec() {
        0
    } else {
        let a = chosen_action_spec(agent, e);
        e.reward_spec(a, time_step) + rollout_reward(
            agent,
            e.next_spec(a, time_step),
            time_step,
            (fuel - 1) as nat,
        )
    }
}

/// Final state of one episode played from `e` for at most `fuel`
/// steps.
pub open spec fn rollout_state<T: MarkovDecisionProcess, A: Agent<T>>(
    agent: A,
    e: T,
    time_step: i64,
    fuel: nat,
) -> T
    decreases fuel,
{
    if fuel == 0 || e.finished_spec() {
        e
    } else {
        let a = chosen_action_spec(agent, e);
        rollout_state(agent, e.next_spec(a, time_step), time_step, (fuel - 1) as nat)
    }
}

/// A rollout from a well-formed state stays well-formed and its total
/// reward is bounded by one reward unit per step of fuel.
pub proof fn lemma_rollout_bounds<T: MarkovDecisionProcess, A: Agent<T>>(
    agent: A,
    e: T,
    time_step: i64,
    fuel: nat,
)
    requires
        e.inv(),
        0 < time_step <= TIME_STEP_MAX,
    ensures
        rollout_state(agent, e, time_step, fuel).inv(),
        -(fuel * REWARD_LIMIT) <= rollout_reward(agent, e, time_step, fuel) <= fuel * REWARD_LIMIT,
    decreases fuel,
{
    if fuel == 0 || e.finished_spec() {
    } else {
        let a = chosen_action_spec(agent, e);
        e.lemma_step_preserves(a, time_step);
        lemma_rollout_bounds(agent, e.next_spec(a, time_step), time_step, (fuel - 1) as nat);
    }
}

/// The "substitute the fallback action and continue" combinator: the
/// agent's chosen action, or the environment's fallback on failure.
pub fn policy_or_fallback<T: MarkovDecisionProcess, A: Agent<T>>(agent: &A, e: &T) -> (a:
    T::Action)
    requires
        agent.wf(),
        e.inv(),
    ensures
        a == chosen_action_spec(*agent, *e),
{
    match agent.policy(e) {
        Ok(a) => a,
        Err(_) => T::fallback_action(),
    }
}

/// Drive `e` to termination (or to `step_cap` steps), summing one
/// reward per step.  Does not reset `e`: the caller decides the
/// starting state.  The result is exactly the spec-level rollout of
/// the agent from the starting state.
pub fn play_game<T: MarkovDecisionProcess, A: Agent<T>>(
    agent: &A,
    e: &mut T,
    time_step: i64,
    step_cap: u64,
) -> (r: Result<i64, NotAllowed<T::Action>>)
    requires
        agent.wf(),
        old(e).inv(),
        0 < time_step <= TIME_STEP_MAX,
        step_cap <= STEP_CAP_MAX,
    ensures
        final(e).inv(),
        *final(e) == rollout_state(*agent, *old(e), time_step, step_cap as nat),
        r matches Ok(total) && total == rollout_reward(
            *agent,
            *old(e),
            time_step,
            step_cap as nat,
        ),
{
    let mut total: i64 = 0;
    let mut steps: u64 = 0;
    let ghost e0 = *e;
    loop
        invariant_except_break
            agent.wf(),
            e.inv(),
            0 < time_step <= TIME_STEP_MAX,
            steps <= step_cap,
            step_cap <= STEP_CAP_MAX,
            rollout_state(*agent, e0, time_step, step_cap as nat) == rollout_state(
                *agent,
                *e,
                time_step,
                (step_cap - steps) as nat,
            ),
            rollout_reward(*agent, e0, time_step, step_cap as nat) == total + rollout_reward(
                *agent,
                *e,
                time_step,
                (step_cap - steps) as nat,
            ),
            -(steps * REWARD_LIMIT) <= total <= steps * REWARD_LIMIT,
        ensures
            e.inv(),
            *e == rollout_state(*agent, e0, time_step, step_cap as nat),
            total == rollout_reward(*agent, e0, time_step, step_cap as nat),
        decreases step_cap - steps,
    {
        let fin = e.is_finished();
        if steps >= step_cap || fin {
            break;
        }
        let a = policy_or_fallback(agent, e);
        proof {
            e.lemma_step_preserves(a, time_step);
        }
        let res = e.step(a, time_step);
        match res {
            Ok(rew) => {
                total = total + rew;
            },
            Err(_) => {
            },
        }
        steps = steps + 1;
    }
    Ok(total)
}

/// Number of episodes `evaluate` plays for the given argument.
pub open spec fn episodes_spec(nb_games: Option<u32>) -> nat {
    match nb_games {
        Some(n) => n as nat,
        None => EPISODES_DEFAULT as nat,
    }
}

/// Total reward of `n` episodes, each a `reset` from the running
/// random source followed by a capped rollout.
pub open spec fn eval_reward<T: MarkovDecisionProcess, A: Agent<T>>(
    agent: A,
    e: T,
    rng: Prng,
    n: nat,
    time_step: i64,
    cap: nat,
) -> int
    decreases n,
{
    if n == 0 {
        0
    } else {
        let fresh = e.reset_spec(rng);
        let rew = rollout_reward(agent, fresh.0, time_step, cap);
        rew + eval_reward(
            agent,
            rollout_state(agent, fresh.0, time_step, cap),
            fresh.1,
            (n - 1) as nat,
            time_step,
            cap,
        )
    }
}

/// Environment state after `n` evaluation episodes.
pub open spec fn eval_state<T: MarkovDecisionProcess, A: Agent<T>>(
    agent: A,
    e: T,
    rng: Prng,
    n: nat,
    time_step: i64,
    cap: nat,
) -> T
    decreases n,
{
    if n == 0 {
        e
    } else {
        let fresh = e.reset_spec(rng);
        eval_state(
            agent,
            rollout_state(agent, fresh.0, time_step, cap),
            fresh.1,
            (n - 1) as nat,
            time_step,
            cap,
        )
    }
}

/// Random-source state after `n` evaluation episodes.
pub open spec fn eval_rng<T: MarkovDecisionProcess, A: Agent<T>>(
    agent: A,
    e: T,
    rng: Prng,
    n: nat,
    time_step: i64,
    cap: nat,
) -> Prng
    decreases n,
{
    if n == 0 {
        rng
    } else {
        let fresh = e.reset_spec(rng);
        eval_rng(
            agent,
            rollout_state(agent, fresh.0, time_step, cap),
            fresh.1,
            (n - 1) as nat,
            time_step,
            cap,
        )
    }
}

/// Monte-Carlo evaluation: repeat `reset` then `play_game` for
/// `nb_games` independent episodes (`EPISODES_DEFAULT` when
/// unspecified) and sum the episode rewards.
pub fn evaluate<T: MarkovDecisionProcess, A: Agent<T>>(
    agent: &A,
    e: &mut T,
    rng: &mut Prng,
    nb_games: Option<u32>,
    time_step: i64,
    step_cap: u64,
) -> (r: Result<i64, NotAllowed<T::Action>>)
    requires
        agent.wf(),
        old(e).inv(),
        0 < time_step <= TIME_STEP_MAX,
        step_cap <= STEP_CAP_MAX,
        episodes_spec(nb_games) <= EPISODES_MAX,
    ensures
        final(e).inv(),
        *final(e) == eval_state(
            *agent,
            *old(e),
            *old(rng),
            episodes_spec(nb_games),
            time_step,
            step_cap as nat,
        ),
        *final(rng) == eval_rng(
            *agent,
            *old(e),
            *old(rng),
            episodes_spec(nb_games),
            time_step,
            step_cap as nat,
        ),
        r matches Ok(total) && total == eval_reward(
            *agent,
            *old(e),
            *old(rng),
            episodes_spec(nb_games),
            time_step,
            step_cap as nat,
        ),
{
    let n: u32 = match nb_games {
        Some(n) => n,
        None => EPISODES_DEFAULT,
    };
    let mut total: i64 = 0;
    let mut played: u32 = 0;
    let ghost e0 = *e;
    let ghost rng0 = *rng;
    loop
        invariant_except_break
            agent.wf(),
            e.inv(),
            0 < time_step <= TIME_STEP_MAX,
            step_cap <= STEP_CAP_MAX,
            played <= n,
            n <= EPISODES_MAX,
            eval_state(*agent, e0, rng0, n as nat, time_step, step_cap as nat) == eval_state(
                *agent,
                *e,
                *rng,
                (n - played) as nat,
                time_step,
                step_cap as nat,
            ),
            eval_rng(*agent, e0, rng0, n as nat, time_step, step_cap as nat) == eval_rng(
                *agent,
                *e,
                *rng,
                (n - played) as nat,
                time_step,
                step_cap as nat,
            ),
            eval_reward(*agent, e0, rng0, n as nat, time_step, step_cap as nat) == total
                + eval_reward(*agent, *e, *rng, (n - played) as nat, time_step, step_cap as nat),
            -(played as int * (step_cap as int * (REWARD_LIMIT as int))) <= total <= played as int
                * (step_cap as int * (REWARD_LIMIT as int)),
        ensures
            e.inv(),
            *e == eval_state(*agent, e0, rng0, n as nat, time_step, step_cap as nat),
            *rng == eval_rng(*agent, e0, rng0, n as nat, time_step, step_cap as nat),
            total == eval_reward(*agent, e0, rng0, n as nat, time_step, step_cap as nat),
        decreases n - played,
    {
        if played >= n {
            break;
        }
        proof {
            e.lemma_reset_preserves(*rng);
        }
        e.reset(rng);
        proof {
            lemma_rollout_bounds(*agent, *e, time_step, step_cap as nat);
        }
        let res = play_game(agent, e, time_step, step_cap);
        match res {
            Ok(rew) => {
                proof {
                    vstd::arithmetic::mul::lemma_mul_upper_bound(
                        played as int,
                        1_000_000,
                        step_cap as int * (REWARD_LIMIT as int),
                        1_000_000_000,
                    );
                    vstd::arithmetic::mul::lemma_mul_upper_bound(
                        played as int + 1,
                        1_000_000,
                        step_cap as int * (REWARD_LIMIT as int),
                        1_000_000_000,
                    );
                    lemma_sum_bound_step(
                        played as int,
                        step_cap as int * (REWARD_LIMIT as int),
                        total as int,
                        rew as int,
                    );
                }
                total = total + rew;
            },
            Err(_) => {
            },
        }
        played = played + 1;
    }
    Ok(total)
}

/// Growing a sum bounded by `k` copies of a bound by one more bounded
/// term keeps it bounded by `k + 1` copies.
proof fn lemma_sum_bound_step(k: int, bound: int, total: int, add: int)
    requires
        k >= 0,
        bound >= 0,
        -(k * bound) <= total <= k * bound,
        -bound <= add <= bound,
    ensures
        -((k + 1) * bound) <= total + add <= (k + 1) * bound,
{
    assert((k + 1) * bound == k * bound + bound) by (nonlinear_arith);
}

} // verus!
