//! The whole-field formation linear program of a team.
pub mod anchor;
pub mod brain;
pub mod guidance;
pub mod inputs;
pub mod layout;
pub mod lines;
pub mod local;
pub mod motion;
pub mod objective;
pub mod plan;
pub mod program;
pub mod reading;
pub mod refine;
pub mod refining;
pub mod shape;
pub mod slots;
pub mod solving;
pub mod state;
pub mod tick;
pub mod zone;
