//! Verified core of a small reinforcement-learning playground.
//!
//! The library defines a Markov decision process contract, two physical
//! environments (a car climbing a curved track and a ball bouncing
//! inside a ring), two decision agents (a discretized value table and a
//! feed-forward network), the Monte-Carlo evaluation protocol that
//! scores agents, and the named-tensor model format the agents are
//! persisted in.  All quantities are fixed-point integers in
//! thousandths of a unit (see `fixed`), so every contract below pins
//! the exact value of every result.

pub mod agent;
pub mod fixed;
pub mod mdp;
pub mod mlp;
pub mod model_io;
pub mod mountaincar;
pub mod ringpong;
pub mod rng;
pub mod tabular;
pub mod track;
