//! Sample evaluation for strip packing with an optional mirror-symmetry constraint.
//!
//! Coordinates are integers in a fixed length unit and rotations are integers in
//! a fixed angle unit (see [`symmetric::HALF_TURN`]); losses, weights and overlap
//! amounts are unsigned integers. The collision-detection engine itself stands
//! outside: the evaluator takes the hazards it reports for a placement.

pub mod cli;
pub mod collector;
pub mod driver;
pub mod evaluator;
pub mod seeding;
pub mod symmetric;
