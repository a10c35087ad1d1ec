//! The Markov decision process contract.
//!
//! An environment owns a physical state, advances it with `step`,
//! reports termination with `is_finished`, projects it for agents with
//! `feature`, and reinitializes it with `reset`.  Every operation is
//! pinned to a spec-level transition function, so a trajectory is a
//! mathematical function of the starting state, the action sequence
//! and the time step: there is no hidden randomness after `reset`.
use vstd::prelude::*;

verus! {

use crate::rng::Prng;

/// Largest accepted simulation time step, one second.
pub const TIME_STEP_MAX: i64 = 1000;

/// Default simulation time step, a tenth of a second.
pub const TIME_STEP_DEFAULT: i64 = 100;

/// Every environment of this library pays out at most one unit of
/// reward per step, in either direction.
pub const REWARD_LIMIT: i64 = 1000;

/// Error value for an action an environment cannot accept.  No
/// environment of this library ever returns it from `step`, but the
/// result type keeps the slot open for foreign implementations.
#[derive(Debug, Clone, PartialEq)]
pub struct NotAllowed<A> {
    /// The offending action.
    pub a: A,
}

impl<A> NotAllowed<A> {
    /// A human-readable description of the failure.
    pub fn message(&self) -> (s: String)
        ensures
            s@ == "Action is not allowed in the current state."@,
    {
        "Action is not allowed in the current state.".to_owned()
    }
}

/// A Markov decision process: a state machine with a reward signal.
///
/// The spec members fix the mathematical model: `next_spec` and
/// `reward_spec` describe exactly what one `step` does, `reset_spec`
/// describes exactly what `reset` does with the random source it is
/// handed, and the executable methods are each pinned to their spec
/// counterpart.  `fallback_action` names the action the evaluation
/// protocol substitutes when an agent's policy fails.
pub trait MarkovDecisionProcess: Sized {
    /// The closed set of moves this environment accepts.
    type Action;

    /// Well-formedness of the state: every field within its physical
    /// range.  Established by construction and preserved by every
    /// operation.
    spec fn inv(&self) -> bool;

    /// The terminal-state predicate, as a pure function of the state.
    spec fn finished_spec(&self) -> bool;

    /// The state one `step` call produces.
    spec fn next_spec(&self, a: Self::Action, time_step: i64) -> Self;

    /// The reward one `step` call pays out.
    spec fn reward_spec(&self, a: Self::Action, time_step: i64) -> i64;

    /// The feature projection of the state.
    spec fn feature_spec(&self) -> Seq<i64>;

    /// The state and advanced random source `reset` produces.
    spec fn reset_spec(&self, rng: Prng) -> (Self, Prng);

    /// The action substituted when a policy evaluation fails.
    spec fn fallback_action_spec() -> Self::Action;

    /// A step from any well-formed state stays well-formed and pays a
    /// bounded reward.
    proof fn lemma_step_preserves(&self, a: Self::Action, time_step: i64)
        requires
            self.inv(),
            0 < time_step <= TIME_STEP_MAX,
        ensures
            self.next_spec(a, time_step).inv(),
            -REWARD_LIMIT <= self.reward_spec(a, time_step) <= REWARD_LIMIT,
    ;

    /// A reset from any well-formed state yields a well-formed,
    /// non-terminal state.
    proof fn lemma_reset_preserves(&self, rng: Prng)
        requires
            self.inv(),
        ensures
            self.reset_spec(rng).0.inv(),
            !self.reset_spec(rng).0.finished_spec(),
    ;

    /// Reinitialize the state from the given random source.  The new
    /// state is never terminal.
    fn reset(&mut self, rng: &mut Prng)
        requires
            old(self).inv(),
        ensures
            final(self).inv(),
            !final(self).finished_spec(),
            (*final(self), *final(rng)) == old(self).reset_spec(*old(rng)),
    ;

    /// Advance the simulation by `time_step` under action `a` and pay
    /// out the step's reward.  Always succeeds on a well-formed state.
    fn step(&mut self, a: Self::Action, time_step: i64) -> (r: Result<
        i64,
        NotAllowed<Self::Action>,
    >)
        requires
            old(self).inv(),
            0 < time_step <= TIME_STEP_MAX,
        ensures
            final(self).inv(),
            *final(self) == old(self).next_spec(a, time_step),
            r matches Ok(rew) && rew == old(self).reward_spec(a, time_step),
    ;

    /// Whether the state is terminal; pure, no side effects.
    fn is_finished(&self) -> (r: bool)
        requires
            self.inv(),
        ensures
            r == self.finished_spec(),
    ;

    /// The feature vector agents consume.
    fn feature(&self) -> (r: Vec<i64>)
        requires
            self.inv(),
        ensures
            r@ == self.feature_spec(),
    ;

    /// The action substituted when a policy evaluation fails.
    fn fallback_action() -> (a: Self::Action)
        ensures
            a == Self::fallback_action_spec(),
    ;
}

} // verus!
