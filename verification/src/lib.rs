//! The decision core of a two-dimensional Verlet particle engine.
//!
//! Numbers are single-precision floats held by their bit pattern
//! ([`scalar`]). The library never computes with them: every new position is
//! proposed from outside. It decides which proposals are taken and what they
//! touch ([`node`]), runs them over the whole store ([`store`]), and keeps
//! the stages of a tick in their order ([`simulation`]).

pub mod maths;
pub mod node;
pub mod palette;
pub mod physics;
pub mod scalar;
pub mod simulation;
pub mod store;
