//! Discrete logic of a soccer simulation.
use vstd::prelude::*;

pub mod arithmetic;
pub mod central;
pub mod commitment;
pub mod confidence;
pub mod coordination;
pub mod decimals;
pub mod elo;
pub mod eval_gate;
pub mod flags;
pub mod formation;
pub mod genome;
pub mod geometry;
pub mod intervals;
pub mod marking;
pub mod meaning;
pub mod number;
pub mod observe;
pub mod order;
pub mod overlay;
pub mod pitch;
pub mod reals;
pub mod rotation;
pub mod step;
pub mod strategy;
pub mod sums;
pub mod text;
pub mod tunables;
pub mod winger;

verus! {

} // verus!
