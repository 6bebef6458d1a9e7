//! Player rotation over the periods of a match: rules, schedules, programs and policies.
pub mod admission;
pub mod aggregate;
pub mod belief;
pub mod decode;
pub mod encoding;
pub mod feasible;
pub mod formation;
pub mod mdp;
pub mod model;
pub mod objective;
pub mod optimality;
pub mod points;
pub mod policy;
pub mod problem;
pub mod rows;
pub mod rules;
pub mod sample;
pub mod simulate;
pub mod solve;
pub mod structure;
pub mod transforms;
